//! The distinguished helper instance and its bootstrap.
//!
//! The helper instance has a fixed, well-known name; the orchestrator
//! guarantees it exists before other operations run, treating "already
//! exists" as success.  The methods here hold the configuration, drive
//! the bootstrap machine one phase at a time, and build the exact host
//! CLI invocations; the embedding program runs them and reports back.

use vstd::prelude::*;
use vstd::string::StringExecFns;
use vstd::utf8::valid_utf8;

use crate::bootstrap::BootstrapEvent;
use crate::bootstrap::BootstrapPhase;
use crate::bootstrap::DownloadRequest;
use crate::bootstrap::bootstrap_step;
use crate::text::lines_spec;
use crate::wsl_api::WslApi;
use crate::wsl_api::WslCommand;
use crate::wsl_api::WslError;
use crate::wsl_api::cleaned_output_spec;

verus! {

/// The fixed name of the helper instance.
pub open spec fn helper_name_spec() -> Seq<char> {
    "weo_orchestrator"@
}

/// Where the helper image is downloaded from.
pub open spec fn helper_image_url_spec() -> Seq<char> {
    "https://dl-cdn.alpinelinux.org/alpine/v3.20/releases/x86_64/alpine-minirootfs-3.20.3-x86_64.tar.gz"@
}

/// The local file name of the helper image archive.
pub open spec fn helper_image_name_spec() -> Seq<char> {
    "alpine-minirootfs-3.20.3-x86_64.tar.gz"@
}

/// The helper instance: its fixed configuration and the phase its
/// bootstrap stands in.
pub struct WindowsHelperInstance {
    pub name: String,
    pub image_download_url: String,
    pub image_name: String,
    pub wsl_storage_path: String,
    pub wsl_api: WslApi,
    pub phase: BootstrapPhase,
}

impl WindowsHelperInstance {
    /// The configuration invariant: the fixed name, image source and
    /// storage layout derived from the home directory.
    pub open spec fn wf(&self, home: Seq<char>) -> bool {
        &&& self.name@ == helper_name_spec()
        &&& self.image_download_url@ == helper_image_url_spec()
        &&& self.image_name@ == helper_image_name_spec()
        &&& self.wsl_storage_path@ == home + "/wsl"@
        &&& self.wsl_api.storage_path@ == self.wsl_storage_path@
    }

    /// The two helper values agree on everything but the phase.
    pub open spec fn same_config(&self, other: &Self) -> bool {
        &&& self.name@ == other.name@
        &&& self.image_download_url@ == other.image_download_url@
        &&& self.image_name@ == other.image_name@
        &&& self.wsl_storage_path@ == other.wsl_storage_path@
        &&& self.wsl_api.storage_path@ == other.wsl_api.storage_path@
    }

    /// Builds the helper configuration for the given home directory,
    /// with the bootstrap not yet begun.
    pub fn new(home_path: &str) -> (r: Self)
        ensures
            r.wf(home_path@),
            r.phase is Unchecked,
    {
        let mut storage = String::from_str(home_path);
        storage.append("/wsl");
        let api = WslApi::new(storage.as_str());
        WindowsHelperInstance {
            name: String::from_str("weo_orchestrator"),
            image_download_url: String::from_str(
                "https://dl-cdn.alpinelinux.org/alpine/v3.20/releases/x86_64/alpine-minirootfs-3.20.3-x86_64.tar.gz",
            ),
            image_name: String::from_str("alpine-minirootfs-3.20.3-x86_64.tar.gz"),
            wsl_storage_path: storage,
            wsl_api: api,
            phase: BootstrapPhase::Unchecked,
        }
    }

    /// Opens the bootstrap: the registry must now be queried with the
    /// returned invocation.
    pub fn begin_check(&mut self) -> (c: WslCommand)
        requires
            old(self).phase is Unchecked,
        ensures
            final(self).same_config(old(self)),
            final(self).phase == bootstrap_step(old(self).phase, BootstrapEvent::Started),
            final(self).phase is Checking,
            c.args.deep_view() == seq!["-l"@, "-q"@],
    {
        self.phase = BootstrapPhase::Checking;
        WslApi::list_command()
    }

    /// Whether the helper instance appears in the captured registry
    /// listing.
    pub fn instance_exists(&self, stdout: &Vec<u8>) -> (r: Result<bool, WslError>)
        ensures
            r is Ok <==> valid_utf8(stdout@),
            r matches Ok(b) ==> b == lines_spec(cleaned_output_spec(stdout@)).contains(
                self.name@,
            ),
            r matches Err(e) ==> e == WslError::Encoding,
    {
        self.wsl_api.instance_exists(stdout, self.name.as_str())
    }

    /// Feeds the registry's answer to the bootstrap machine: a hit
    /// ends the bootstrap as Present, a miss asks for the image.
    pub fn observe_check(&mut self, exists: bool)
        requires
            old(self).phase is Checking,
        ensures
            final(self).same_config(old(self)),
            final(self).phase == bootstrap_step(
                old(self).phase,
                BootstrapEvent::Checked { exists },
            ),
            exists ==> final(self).phase is Present,
            !exists ==> final(self).phase is Missing,
    {
        if exists {
            self.phase = BootstrapPhase::Present;
        } else {
            self.phase = BootstrapPhase::Missing;
        }
    }

    /// Asks for the image archive to be downloaded to a fresh
    /// temporary directory.
    pub fn begin_download(&mut self) -> (r: DownloadRequest)
        requires
            old(self).phase is Missing,
        ensures
            final(self).same_config(old(self)),
            final(self).phase == bootstrap_step(old(self).phase, BootstrapEvent::DownloadStarted),
            final(self).phase is Downloading,
            r.url@ == old(self).image_download_url@,
            r.file_name@ == old(self).image_name@,
    {
        self.phase = BootstrapPhase::Downloading;
        DownloadRequest { url: self.image_download_url.clone(), file_name: self.image_name.clone() }
    }

    /// Records how the download went: only success may move on to the
    /// import; a failure is fatal to the bootstrap.
    pub fn finish_download(&mut self, ok: bool)
        requires
            old(self).phase is Downloading,
        ensures
            final(self).same_config(old(self)),
            final(self).phase == bootstrap_step(old(self).phase, BootstrapEvent::DownloadFinished {
                ok,
            }),
            ok ==> final(self).phase is Importing,
            !ok ==> final(self).phase is Failed,
    {
        if ok {
            self.phase = BootstrapPhase::Importing;
        } else {
            self.phase = BootstrapPhase::Failed;
        }
    }

    /// The invocation that imports the helper instance from the
    /// downloaded archive, storing it under its own directory.
    pub fn import_command(&self, image_path: &str) -> (c: WslCommand)
        requires
            self.phase is Importing,
        ensures
            c.args.deep_view() == seq![
                "--import"@,
                self.name@,
                self.wsl_storage_path@ + "/"@ + self.name@,
                image_path@,
            ],
    {
        let mut storage = self.wsl_storage_path.clone();
        storage.append("/");
        storage.append(self.name.as_str());
        let mut args: Vec<String> = Vec::new();
        args.push(String::from_str("--import"));
        args.push(self.name.clone());
        args.push(storage);
        args.push(String::from_str(image_path));
        proof {
            assert(args.deep_view() =~= seq![
                "--import"@,
                self.name@,
                self.wsl_storage_path@ + "/"@ + self.name@,
                image_path@,
            ]);
        }
        WslCommand { args }
    }

    /// Records how the import went: success ends the bootstrap as
    /// Present, failure is fatal.
    pub fn finish_import(&mut self, ok: bool)
        requires
            old(self).phase is Importing,
        ensures
            final(self).same_config(old(self)),
            final(self).phase == bootstrap_step(old(self).phase, BootstrapEvent::ImportFinished {
                ok,
            }),
            ok ==> final(self).phase is Present,
            !ok ==> final(self).phase is Failed,
    {
        if ok {
            self.phase = BootstrapPhase::Present;
        } else {
            self.phase = BootstrapPhase::Failed;
        }
    }

    /// The name under which commands address the helper instance.
    pub fn run_command(&self) -> (r: &str)
        ensures
            r@ == self.name@,
    {
        self.name.as_str()
    }
}

} // verus!
