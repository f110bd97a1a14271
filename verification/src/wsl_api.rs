//! Adapter for the host virtualization CLI.
//!
//! Every backend operation is split into two verified halves: a
//! builder that produces the exact argument vector the host CLI must
//! be run with, and an interpreter that turns the captured result of
//! that run into a typed answer.  The embedding program spawns the
//! child process in between and is the only place that performs I/O.

use vstd::prelude::*;
use vstd::string::StringExecFns;
use vstd::utf8::decode_utf8;
use vstd::utf8::valid_utf8;

use crate::text::chars_eq;
use crate::text::chars_to_string;
use crate::text::contains_line;
use crate::text::decode_utf8_bytes;
use crate::text::lemma_chars_deep_view;
use crate::text::lines_spec;
use crate::text::split_lines;
use crate::text::strip_nuls;
use crate::text::strip_nuls_spec;
use crate::text::to_chars;
use crate::text::trim;
use crate::text::trim_spec;

verus! {

/// A failure reported by a backend-facing operation.  Every verified
/// function returns one of these rather than panicking.
#[derive(Clone, Copy, Debug, PartialEq, Eq, Structural)]
pub enum WslError {
    /// The host CLI could not be launched or is not installed.
    ProcessSpawn,
    /// The host CLI produced output that is not valid UTF-8.
    Encoding,
    /// The host rejected an import operation.
    Import,
    /// The host rejected an unregister operation.
    Remove,
    /// A command run inside an instance failed.
    Exec,
}

impl WslError {
    /// A diagnostic line for the failure.
    pub fn describe(&self) -> (r: String)
        ensures
            self is ProcessSpawn ==> r@ == "WSL is not installed"@,
            self is Encoding ==> r@ == "Failed to convert output to string"@,
            self is Import ==> r@ == "Failed to import WSL instance"@,
            self is Remove ==> r@ == "Failed to remove WSL instance"@,
            self is Exec ==> r@ == "Failed to run command in WSL instance"@,
    {
        match self {
            WslError::ProcessSpawn => String::from_str("WSL is not installed"),
            WslError::Encoding => String::from_str("Failed to convert output to string"),
            WslError::Import => String::from_str("Failed to import WSL instance"),
            WslError::Remove => String::from_str("Failed to remove WSL instance"),
            WslError::Exec => String::from_str("Failed to run command in WSL instance"),
        }
    }
}

/// An argument vector for one invocation of the host CLI.
pub struct WslCommand {
    pub args: Vec<String>,
}

/// What the process invoker captured from one invocation: raw
/// standard output and whether the exit status reported success.
pub struct WslOutput {
    pub stdout: Vec<u8>,
    pub success: bool,
}

/// The text of a captured output once decoded and cleaned: its UTF-8
/// decoding with every NUL removed (the host CLI emits UTF-16-derived
/// NULs in list output on some platforms).
pub open spec fn cleaned_output_spec(stdout: Seq<u8>) -> Seq<char> {
    strip_nuls_spec(decode_utf8(stdout))
}

/// Decodes captured output as UTF-8 and strips embedded NULs.
pub fn decode_output(stdout: &Vec<u8>) -> (r: Result<Vec<char>, WslError>)
    ensures
        r is Ok <==> valid_utf8(stdout@),
        r matches Ok(cs) ==> cs@ == cleaned_output_spec(stdout@),
        r matches Err(e) ==> e == WslError::Encoding,
{
    match decode_utf8_bytes(stdout) {
        Some(s) => {
            let cs = to_chars(s.as_str());
            Ok(strip_nuls(&cs))
        },
        None => Err(WslError::Encoding),
    }
}

/// Stateless facade over the host virtualization CLI, configured with
/// the directory under which imported instances keep their state.
pub struct WslApi {
    pub storage_path: String,
}

impl WslApi {
    /// Remembers the storage directory for later imports.
    pub fn new(storage_path: &str) -> (r: Self)
        ensures
            r.storage_path@ == storage_path@,
    {
        WslApi { storage_path: String::from_str(storage_path) }
    }

    /// The invocation that asks the host CLI for its version.
    pub fn version_command() -> (c: WslCommand)
        ensures
            c.args.deep_view() == seq!["--version"@],
    {
        let mut args: Vec<String> = Vec::new();
        args.push(String::from_str("--version"));
        proof {
            assert(args.deep_view() =~= seq!["--version"@]);
        }
        WslCommand { args }
    }

    /// Interprets the version query: a failing exit status means the
    /// backend is not installed, which is fatal.
    pub fn check_version(success: bool) -> (r: Result<(), WslError>)
        ensures
            r is Ok <==> success,
            r matches Err(e) ==> e == WslError::ProcessSpawn,
    {
        if success {
            Ok(())
        } else {
            Err(WslError::ProcessSpawn)
        }
    }

    /// The invocation that lists the registered instances, one name
    /// per line.
    pub fn list_command() -> (c: WslCommand)
        ensures
            c.args.deep_view() == seq!["-l"@, "-q"@],
    {
        let mut args: Vec<String> = Vec::new();
        args.push(String::from_str("-l"));
        args.push(String::from_str("-q"));
        proof {
            assert(args.deep_view() =~= seq!["-l"@, "-q"@]);
        }
        WslCommand { args }
    }

    /// Parses a captured instance listing: one name per line, in
    /// host-reported order, duplicates kept.
    pub fn list_instances(stdout: &Vec<u8>) -> (r: Result<Vec<String>, WslError>)
        ensures
            r is Ok <==> valid_utf8(stdout@),
            r matches Ok(names) ==> names.deep_view() == lines_spec(cleaned_output_spec(stdout@)),
            r matches Err(e) ==> e == WslError::Encoding,
    {
        let cs = match decode_output(stdout) {
            Ok(cs) => cs,
            Err(e) => {
                return Err(e);
            },
        };
        let lines = split_lines(&cs);
        let ghost target = lines_spec(cleaned_output_spec(stdout@));
        let mut names: Vec<String> = Vec::new();
        let mut i: usize = 0;
        while i < lines.len()
            invariant
                i <= lines@.len(),
                lines.deep_view() == target,
                lines@.len() == target.len(),
                names.deep_view() == target.take(i as int),
            decreases lines@.len() - i,
        {
            proof {
                lemma_chars_deep_view(lines[i as int]);
                assert(lines.deep_view()[i as int] == lines@[i as int]@);
            }
            let name = chars_to_string(&lines[i]);
            let ghost pre = names.deep_view();
            names.push(name);
            i = i + 1;
            proof {
                assert(pre.len() == i - 1);
                assert(names.deep_view()[i - 1] == names@[i - 1]@);
                assert(names.deep_view() =~= target.take(i as int));
            }
        }
        proof {
            assert(names.deep_view() =~= target);
        }
        Ok(names)
    }

    /// Whether `instance_name` appears as an exact full-line match in
    /// the captured instance listing: no substring and no
    /// case-insensitive matches.
    pub fn instance_exists(&self, stdout: &Vec<u8>, instance_name: &str) -> (r: Result<
        bool,
        WslError,
    >)
        ensures
            r is Ok <==> valid_utf8(stdout@),
            r matches Ok(b) ==> b == lines_spec(cleaned_output_spec(stdout@)).contains(
                instance_name@,
            ),
            r matches Err(e) ==> e == WslError::Encoding,
    {
        let cs = match decode_output(stdout) {
            Ok(cs) => cs,
            Err(e) => {
                return Err(e);
            },
        };
        let lines = split_lines(&cs);
        let name = to_chars(instance_name);
        Ok(contains_line(&lines, &name))
    }

    /// The invocation that imports a new instance from an image
    /// archive, storing its state under the configured directory.
    pub fn import_instance(&self, instance_name: &str, image_path: &str) -> (c: WslCommand)
        ensures
            c.args.deep_view() == seq![
                "--import"@,
                instance_name@,
                self.storage_path@,
                image_path@,
            ],
    {
        let mut args: Vec<String> = Vec::new();
        args.push(String::from_str("--import"));
        args.push(String::from_str(instance_name));
        args.push(self.storage_path.clone());
        args.push(String::from_str(image_path));
        proof {
            assert(args.deep_view() =~= seq![
                "--import"@,
                instance_name@,
                self.storage_path@,
                image_path@,
            ]);
        }
        WslCommand { args }
    }

    /// Interprets an import invocation: the host's rejection surfaces
    /// as a typed failure, never as a silent success.
    pub fn import_outcome(success: bool) -> (r: Result<(), WslError>)
        ensures
            r is Ok <==> success,
            r matches Err(e) ==> e == WslError::Import,
    {
        if success {
            Ok(())
        } else {
            Err(WslError::Import)
        }
    }

    /// The invocation that unregisters an instance and deletes its
    /// state.
    pub fn remove_instance(&self, instance_name: &str) -> (c: WslCommand)
        ensures
            c.args.deep_view() == seq!["--unregister"@, instance_name@],
    {
        let mut args: Vec<String> = Vec::new();
        args.push(String::from_str("--unregister"));
        args.push(String::from_str(instance_name));
        proof {
            assert(args.deep_view() =~= seq!["--unregister"@, instance_name@]);
        }
        WslCommand { args }
    }

    /// Interprets an unregister invocation.  Removing an instance
    /// that does not exist surfaces as the host's rejection.
    pub fn remove_outcome(success: bool) -> (r: Result<(), WslError>)
        ensures
            r is Ok <==> success,
            r matches Err(e) ==> e == WslError::Remove,
    {
        if success {
            Ok(())
        } else {
            Err(WslError::Remove)
        }
    }

    /// The invocation that runs `command` as one shell invocation
    /// inside the named instance, as `user`, or as the superuser
    /// account when no user is given.
    pub fn run_command_in_instance(
        &self,
        instance_name: &str,
        command: &str,
        user: Option<&str>,
    ) -> (c: WslCommand)
        ensures
            c.args.deep_view() == seq![
                "-u"@,
                run_user_spec(user),
                "-d"@,
                instance_name@,
                "sh"@,
                "-c"@,
                command@,
            ],
    {
        let instance_user: String = match user {
            Some(u) => String::from_str(u),
            None => String::from_str("root"),
        };
        let mut args: Vec<String> = Vec::new();
        args.push(String::from_str("-u"));
        args.push(instance_user);
        args.push(String::from_str("-d"));
        args.push(String::from_str(instance_name));
        args.push(String::from_str("sh"));
        args.push(String::from_str("-c"));
        args.push(String::from_str(command));
        proof {
            assert(args.deep_view() =~= seq![
                "-u"@,
                run_user_spec(user),
                "-d"@,
                instance_name@,
                "sh"@,
                "-c"@,
                command@,
            ]);
        }
        WslCommand { args }
    }

    /// Interprets a command run inside an instance: the cleaned
    /// captured output on success, a typed failure otherwise.
    pub fn run_outcome(output: &WslOutput) -> (r: Result<String, WslError>)
        ensures
            r is Ok <==> output.success && valid_utf8(output.stdout@),
            r matches Ok(s) ==> s@ == cleaned_output_spec(output.stdout@),
            !output.success ==> (r matches Err(e) && e == WslError::Exec),
            output.success && !valid_utf8(output.stdout@) ==> (r matches Err(e) && e
                == WslError::Encoding),
    {
        if !output.success {
            return Err(WslError::Exec);
        }
        let cs = match decode_output(&output.stdout) {
            Ok(cs) => cs,
            Err(e) => {
                return Err(e);
            },
        };
        Ok(chars_to_string(&cs))
    }

    /// The shell probe whose output tells whether a file exists
    /// inside an instance.
    pub fn file_exists_in_instance(&self, instance_name: &str, file_path: &str) -> (c: WslCommand)
        ensures
            c.args.deep_view() == seq![
                "-u"@,
                "root"@,
                "-d"@,
                instance_name@,
                "sh"@,
                "-c"@,
                file_probe_spec(file_path@),
            ],
    {
        let mut cmd = String::from_str("test -f ");
        cmd.append(file_path);
        cmd.append(" && echo \"EXISTS\" || echo \"NOT EXISTENT\"");
        let c = self.run_command_in_instance(instance_name, cmd.as_str(), None);
        proof {
            assert(c.args.deep_view() =~= seq![
                "-u"@,
                "root"@,
                "-d"@,
                instance_name@,
                "sh"@,
                "-c"@,
                file_probe_spec(file_path@),
            ]);
        }
        c
    }

    /// Interprets the file-existence probe: `true` exactly when the
    /// probe printed the `EXISTS` sentinel; an execution failure
    /// propagates as a typed failure, never as "file absent".
    pub fn file_exists_outcome(output: &WslOutput) -> (r: Result<bool, WslError>)
        ensures
            r is Ok <==> output.success && valid_utf8(output.stdout@),
            r matches Ok(b) ==> b == (trim_spec(cleaned_output_spec(output.stdout@))
                == "EXISTS"@),
            !output.success ==> (r matches Err(e) && e == WslError::Exec),
            output.success && !valid_utf8(output.stdout@) ==> (r matches Err(e) && e
                == WslError::Encoding),
    {
        if !output.success {
            return Err(WslError::Exec);
        }
        let cs = match decode_output(&output.stdout) {
            Ok(cs) => cs,
            Err(e) => {
                return Err(e);
            },
        };
        let trimmed = trim(&cs);
        let sentinel = to_chars("EXISTS");
        Ok(chars_eq(&trimmed, &sentinel))
    }
}

/// The host's registry, modelled as the ordered list of registered
/// names, and its import rule: the host enforces name uniqueness, so
/// importing a name that is already registered is rejected and the
/// registry is unchanged.  The adapter relies on the host for this
/// rule; `import_outcome` turns the rejection into a typed failure.
pub open spec fn host_import_spec(reg: Seq<Seq<char>>, name: Seq<char>) -> (Seq<Seq<char>>, bool) {
    if reg.contains(name) {
        (reg, false)
    } else {
        (reg.push(name), true)
    }
}

/// How many times `name` is registered.
pub open spec fn count_name(reg: Seq<Seq<char>>, name: Seq<char>) -> nat
    decreases reg.len(),
{
    if reg.len() == 0 {
        0
    } else {
        (if reg.last() == name {
            1nat
        } else {
            0nat
        }) + count_name(reg.drop_last(), name)
    }
}

pub proof fn lemma_absent_count_zero(reg: Seq<Seq<char>>, name: Seq<char>)
    requires
        !reg.contains(name),
    ensures
        count_name(reg, name) == 0,
    decreases reg.len(),
{
    if reg.len() > 0 {
        assert(reg.last() != name);
        assert(!reg.drop_last().contains(name)) by {
            if reg.drop_last().contains(name) {
                let i = choose|i: int| 0 <= i < reg.drop_last().len() && reg.drop_last()[i] == name;
                assert(reg[i] == name);
            }
        }
        lemma_absent_count_zero(reg.drop_last(), name);
    }
}

/// The idempotence boundary of import: importing the same name twice
/// leaves exactly one registration, because the host rejects the
/// second import — never two entries, and never a silent second
/// success.
pub proof fn lemma_import_idempotence_boundary(reg: Seq<Seq<char>>, name: Seq<char>)
    requires
        !reg.contains(name),
    ensures
        ({
            let (reg1, ok1) = host_import_spec(reg, name);
            let (reg2, ok2) = host_import_spec(reg1, name);
            &&& ok1
            &&& !ok2
            &&& reg2 == reg1
            &&& count_name(reg2, name) == 1
        }),
{
    let (reg1, ok1) = host_import_spec(reg, name);
    assert(reg1 == reg.push(name));
    assert(reg1[reg.len() as int] == name);
    assert(reg1.contains(name));
    assert(reg1.drop_last() =~= reg);
    lemma_absent_count_zero(reg, name);
    assert(count_name(reg1, name) == 1);
}

/// The account a command runs under: the requested user, or the
/// superuser account when none was requested.
pub open spec fn run_user_spec(user: Option<&str>) -> Seq<char> {
    match user {
        Some(u) => u@,
        None => "root"@,
    }
}

/// The shell probe text for a file-existence check.
pub open spec fn file_probe_spec(path: Seq<char>) -> Seq<char> {
    "test -f "@ + path + " && echo \"EXISTS\" || echo \"NOT EXISTENT\""@
}

} // verus!
