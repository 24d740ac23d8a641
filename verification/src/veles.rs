//! Veles: restart planning. A service restarts through a small shell
//! wrapper script — shebang, PATH export, optional cleanup block, then the
//! start command — run by the system shell in the service's working
//! directory under its configured identity. The library materialises the
//! script text and the spawn plan; the embedding program writes the file
//! and spawns the process.

use vstd::prelude::*;
use vstd::string::*;

use crate::common::DEFAULT_PATH;
use crate::common::DEFAULT_SHELL;
use crate::common::SERVICES_DIR;
use crate::init_fields::Env;
use crate::init_fields::InitFields;
use crate::mortal::Mortal;
use crate::service::Service;

verus! {

/// The wrapper script: where it belongs on disk and what it holds. The
/// file is written fully executable so the shell can exec it directly.
#[derive(Debug)]
pub struct ShellWrapper {
    /// Fixed per-service path of the script.
    pub path: String,
    /// The script text.
    pub contents: String,
}

/// Everything needed to spawn a service's start command: the shell runs
/// the wrapper in the working directory, with the standard streams
/// pointed at the null device, under the resolved user and group when the
/// system knows them (a missing name is logged and skipped, not fatal).
#[derive(Debug)]
pub struct StartPlan {
    /// Shell to invoke with `-c` and the wrapper path.
    pub shell: String,
    /// The wrapper script to write before spawning.
    pub wrapper: ShellWrapper,
    /// Working directory of the child.
    pub work_dir: String,
    /// User name to resolve and apply, best effort.
    pub user: String,
    /// Group name to resolve and apply, best effort.
    pub group: String,
}

impl Service {
    /// Where the service's wrapper script lives.
    pub open spec fn spec_wrapper_path(self) -> Seq<char> {
        SERVICES_DIR@ + "/."@ + self.spec_name() + ".sh"@
    }

    /// The wrapper script text: shebang and PATH export, the cleanup
    /// block when one is configured, then the start command text.
    pub open spec fn spec_wrapper_contents(self, commands: Seq<char>) -> Seq<char> {
        "#!/bin/sh\nexport PATH="@ + DEFAULT_PATH@ + "\n"@ + (match self.cleanup {
            Some(cleanup) => "\n#Pre-start cleanup routine:\n"@ + cleanup@ + "\n\n"@,
            None => Seq::empty(),
        }) + commands
    }
}

/// Spawning of a service.
pub trait Veles {
    fn create_shell_wrapper(&self, commands: String) -> ShellWrapper;

    fn start_service(&self, env: &Env) -> Result<StartPlan, Mortal>;
}

impl Veles for Service {
    /// Materialise the wrapper script for the given start command text.
    fn create_shell_wrapper(&self, commands: String) -> (r: ShellWrapper)
        ensures
            r.path@ == self.spec_wrapper_path(),
            r.contents@ == self.spec_wrapper_contents(commands@),
    {
        let mut path = String::from_str(SERVICES_DIR);
        path.append("/.");
        let name = self.name();
        path.append(name.as_str());
        path.append(".sh");
        let mut contents = String::from_str("#!/bin/sh\nexport PATH=");
        contents.append(DEFAULT_PATH);
        contents.append("\n");
        match &self.cleanup {
            Some(cleanup) => {
                contents.append("\n#Pre-start cleanup routine:\n");
                contents.append(cleanup.as_str());
                contents.append("\n\n");
            },
            None => {},
        }
        contents.append(commands.as_str());
        proof {
            assert(path@ =~= self.spec_wrapper_path());
            assert(contents@ =~= self.spec_wrapper_contents(commands@));
        }
        ShellWrapper { path, contents }
    }

    /// Plan the restart: without a start command the service cannot be
    /// restarted; with one, the plan names the shell, the materialised
    /// wrapper, the working directory and the resolved identity.
    fn start_service(&self, env: &Env) -> (r: Result<StartPlan, Mortal>)
        ensures
            match self.start {
                Some(commands) => match r {
                    Ok(plan) => plan.shell@ == DEFAULT_SHELL@ && plan.wrapper.path@
                        == self.spec_wrapper_path() && plan.wrapper.contents@
                        == self.spec_wrapper_contents(commands@) && plan.work_dir@
                        == self.spec_work_dir() && plan.user@ == self.spec_user(*env)
                        && plan.group@ == self.spec_group(*env),
                    Err(_) => false,
                },
                None => r == Err::<StartPlan, Mortal>(
                    Mortal::ServiceNoStartDefined { service: *self },
                ),
            },
    {
        match &self.start {
            Some(commands) => {
                let wrapper = self.create_shell_wrapper(commands.clone());
                Ok(
                    StartPlan {
                        shell: String::from_str(DEFAULT_SHELL),
                        wrapper,
                        work_dir: self.work_dir(),
                        user: self.user(env),
                        group: self.group(env),
                    },
                )
            },
            None => Err(Mortal::ServiceNoStartDefined { service: self.clone() }),
        }
    }
}

} // verus!
