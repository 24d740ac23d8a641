//! The Service Record: one supervised service as loaded from its definition
//! file, together with its derived name and its human-readable descriptor.

use vstd::prelude::*;
use vstd::string::*;

use crate::init_fields::InitFields;
use crate::mortal::Mortal;

verus! {

/// Declares `colored`'s styled-string type so presentation helpers can
/// return it; the crate's contents stay opaque.
#[verifier::external_type_specification]
#[verifier::external_body]
pub struct ExColoredString(colored::ColoredString);

/// One supervised service, immutable for the duration of a check cycle.
/// Every field is optional; accessors resolve the documented fallback chain.
#[derive(Debug, Default)]
pub struct Service {
    /// Service name; defaults to the definition file name without extension.
    pub name: Option<String>,
    /// Definition file name, set only after a successful load.
    pub ini_file: Option<String>,
    /// User name to launch the service as.
    pub user: Option<String>,
    /// Group name to launch the service as.
    pub group: Option<String>,
    /// Pause before checking, in milliseconds.
    pub checks_interval: Option<u64>,
    /// Timeout of one URL check, in milliseconds.
    pub checks_url_timeout: Option<u64>,
    /// Pause between death watch signals, in milliseconds.
    pub deathwatches_interval: Option<u64>,
    /// Webhook receiving alert notifications.
    pub slack_webhook_url: Option<String>,
    /// Channel receiving alert notifications.
    pub slack_alert_channel: Option<String>,
    /// Working directory of the started service.
    pub work_dir: Option<String>,
    /// Command starting the service.
    pub start: Option<String>,
    /// Command run before `start` to clean leftovers up.
    pub cleanup: Option<String>,
    /// URLs checked with HTTP(S) GET requests.
    pub urls: Option<Vec<String>>,
    /// UNIX socket checked by connecting and writing a probe message.
    pub unix_socket: Option<String>,
    /// Minimum free disk space, in MiB.
    pub disk_minimum_space: Option<i64>,
    /// Minimum count of free disk inodes.
    pub disk_minimum_inodes: Option<i64>,
    /// File holding the PID checked with an existence probe.
    pub pid_file: Option<String>,
}

/// Why a definition file did not turn into a Service Record: the file could
/// not be read, or its content could not be decoded.
#[derive(Debug)]
pub enum DefinitionFault {
    /// The definition file could not be read.
    Access { cause: String },
    /// The definition file's content could not be decoded.
    Decode { cause: String },
}

/// Length of the prefix before the first `'.'`, or of the whole sequence
/// when it holds none.
pub open spec fn dotfree_len(s: Seq<char>) -> nat
    decreases s.len(),
{
    if s.len() == 0 || s[0] == '.' {
        0
    } else {
        1 + dotfree_len(s.subrange(1, s.len() as int))
    }
}

pub proof fn lemma_dotfree_len_le(s: Seq<char>)
    ensures
        dotfree_len(s) <= s.len(),
    decreases s.len(),
{
    if s.len() > 0 && s[0] != '.' {
        lemma_dotfree_len_le(s.subrange(1, s.len() as int));
    }
}

proof fn lemma_dotfree_len_range(s: Seq<char>, i: int)
    requires
        0 <= i <= s.len(),
        forall|k: int| 0 <= k < i ==> #[trigger] s[k] != '.',
        i == s.len() || s[i] == '.',
    ensures
        dotfree_len(s) == i,
    decreases i,
{
    if i > 0 {
        let t = s.subrange(1, s.len() as int);
        lemma_dotfree_len_range(t, i - 1);
    }
}

/// The sequence up to but not including its first `'.'`.
pub open spec fn strip_extension(s: Seq<char>) -> Seq<char> {
    s.take(dotfree_len(s) as int)
}

/// The strings joined with `", "` between them.
pub open spec fn spec_join(items: Seq<String>) -> Seq<char>
    decreases items.len(),
{
    if items.len() == 0 {
        Seq::empty()
    } else if items.len() == 1 {
        items[0]@
    } else {
        spec_join(items.drop_last()) + ", "@ + items.last()@
    }
}

/// Join strings with `", "` between them.
pub fn join_comma(items: &Vec<String>) -> (r: String)
    ensures
        r@ == spec_join(items@),
{
    let mut out = String::new();
    let mut i: usize = 0;
    while i < items.len()
        invariant
            0 <= i <= items@.len(),
            out@ == spec_join(items@.take(i as int)),
        decreases items.len() - i,
    {
        proof {
            assert(items@.take(i + 1).drop_last() =~= items@.take(i as int));
            assert(items@.take(i + 1).last() == items@[i as int]);
        }
        if i > 0 {
            out.append(", ");
        }
        out.append(items[i].as_str());
        proof {
            if i == 0 {
                assert(out@ =~= spec_join(items@.take(1)));
            } else {
                assert(out@ =~= spec_join(items@.take(i as int)) + ", "@ + items@[i as int]@);
            }
        }
        i += 1;
    }
    proof {
        assert(items@.take(items@.len() as int) =~= items@);
    }
    out
}

/// Relies on std's `Vec::clone`, which vstd leaves unspecified: the copy
/// holds the same elements in the same order, and a vector's contents are
/// its only specified observable, as with vstd's own `String::clone`.
#[verifier::external_body]
pub(crate) fn clone_string_vec(v: &Vec<String>) -> (r: Vec<String>)
    ensures
        r == *v,
{
    v.clone()
}

impl Clone for Service {
    /// The copy equals the original in every field.
    fn clone(&self) -> (r: Self)
        ensures
            r == *self,
    {
        Service {
            name: clone_opt_string(&self.name),
            ini_file: clone_opt_string(&self.ini_file),
            user: clone_opt_string(&self.user),
            group: clone_opt_string(&self.group),
            checks_interval: self.checks_interval,
            checks_url_timeout: self.checks_url_timeout,
            deathwatches_interval: self.deathwatches_interval,
            slack_webhook_url: clone_opt_string(&self.slack_webhook_url),
            slack_alert_channel: clone_opt_string(&self.slack_alert_channel),
            work_dir: clone_opt_string(&self.work_dir),
            start: clone_opt_string(&self.start),
            cleanup: clone_opt_string(&self.cleanup),
            urls: match &self.urls {
                Some(v) => Some(clone_string_vec(v)),
                None => None,
            },
            unix_socket: clone_opt_string(&self.unix_socket),
            disk_minimum_space: self.disk_minimum_space,
            disk_minimum_inodes: self.disk_minimum_inodes,
            pid_file: clone_opt_string(&self.pid_file),
        }
    }
}

/// Copy an optional string.
pub fn clone_opt_string(v: &Option<String>) -> (r: Option<String>)
    ensures
        r == *v,
{
    match v {
        Some(s) => Some(s.clone()),
        None => None,
    }
}

impl Service {
    /// The definition file name, or empty when none was recorded.
    pub open spec fn spec_ini_file(self) -> Seq<char> {
        match self.ini_file {
            Some(f) => f@,
            None => Seq::empty(),
        }
    }

    /// The service's name: the explicit one, else the definition file name
    /// with everything from its first dot on stripped.
    pub open spec fn spec_name(self) -> Seq<char> {
        match self.name {
            Some(n) => n@,
            None => strip_extension(self.spec_ini_file()),
        }
    }

    /// Returns the definition file name.
    pub fn ini_file(&self) -> (r: String)
        ensures
            r@ == self.spec_ini_file(),
    {
        match &self.ini_file {
            Some(f) => f.clone(),
            None => String::new(),
        }
    }

    /// Returns the service name, deriving it from the definition file name
    /// when no explicit name was configured.
    pub fn name(&self) -> (r: String)
        ensures
            r@ == self.spec_name(),
    {
        match &self.name {
            Some(n) => n.clone(),
            None => {
                let ini = self.ini_file();
                let s = ini.as_str();
                let len = s.unicode_len();
                let mut i: usize = 0;
                while i < len && s.get_char(i) != '.'
                    invariant
                        0 <= i <= len,
                        len == s@.len(),
                        forall|k: int| 0 <= k < i ==> #[trigger] s@[k] != '.',
                    decreases len - i,
                {
                    i += 1;
                }
                proof {
                    lemma_dotfree_len_range(s@, i as int);
                }
                String::from_str(s.substring_char(0, i))
            },
        }
    }

    /// Attach the definition file name to a load outcome: a decoded record
    /// gains its `ini_file`; a fault becomes the matching definition failure.
    pub fn from(file_name: String, loaded: Result<Service, DefinitionFault>) -> (r: Result<
        Service,
        Mortal,
    >)
        ensures
            (match loaded {
                Ok(cfg) => r == Ok::<Service, Mortal>(
                    Service { ini_file: Some(file_name), ..cfg },
                ),
                Err(DefinitionFault::Access { cause }) => r == Err::<Service, Mortal>(
                    Mortal::DefinitionLoadFailure { ini_name: file_name, cause },
                ),
                Err(DefinitionFault::Decode { cause }) => r == Err::<Service, Mortal>(
                    Mortal::DefinitionDecodeFailure { ini_name: file_name, cause },
                ),
            }),
    {
        match loaded {
            Ok(cfg) => Ok(Service { ini_file: Some(file_name), ..cfg }),
            Err(DefinitionFault::Access { cause }) => Err(
                Mortal::DefinitionLoadFailure { ini_name: file_name, cause },
            ),
            Err(DefinitionFault::Decode { cause }) => Err(
                Mortal::DefinitionDecodeFailure { ini_name: file_name, cause },
            ),
        }
    }

    /// The one-line descriptor of the record: name, definition file, and
    /// whichever check targets are configured.
    pub open spec fn spec_describe(self) -> Seq<char> {
        "Service(name: "@ + self.spec_name() + ", ini: "@ + self.spec_ini_file() + (
        if self.spec_pid_file().len() > 0 {
            ", pid_file: "@ + self.spec_pid_file()
        } else {
            Seq::empty()
        }) + (if self.spec_unix_socket().len() > 0 {
            ", unix_socket: "@ + self.spec_unix_socket()
        } else {
            Seq::empty()
        }) + (if self.spec_urls().len() > 0 {
            ", urls: ["@ + spec_join(self.spec_urls()) + "]"@
        } else {
            Seq::empty()
        }) + ")"@
    }

    /// Render the one-line descriptor used in log lines and notifications.
    pub fn describe(&self) -> (r: String)
        ensures
            r@ == self.spec_describe(),
    {
        let mut out = String::from_str("Service(name: ");
        let name = self.name();
        out.append(name.as_str());
        out.append(", ini: ");
        let ini = self.ini_file();
        out.append(ini.as_str());
        let pid_file = self.pid_file();
        if pid_file.as_str().unicode_len() > 0 {
            out.append(", pid_file: ");
            out.append(pid_file.as_str());
        }
        let socket = self.unix_socket();
        if socket.as_str().unicode_len() > 0 {
            out.append(", unix_socket: ");
            out.append(socket.as_str());
        }
        let urls = self.urls();
        if urls.len() > 0 {
            out.append(", urls: [");
            let joined = join_comma(&urls);
            out.append(joined.as_str());
            out.append("]");
        }
        out.append(")");
        proof {
            assert(out@ =~= self.spec_describe());
        }
        out
    }

    /// The descriptor, underlined and in italics for terminal output.
    /// Styling is presentation only, so nothing further is specified of it.
    pub fn styled(&self) -> colored::ColoredString {
        let text = self.describe();
        italic(underline(text.as_str()))
    }
}

/// Relies on `colored::Colorize::underline` for `&str`: wraps the text in
/// the underline escape sequence.
#[verifier::external_body]
fn underline(s: &str) -> colored::ColoredString {
    colored::Colorize::underline(s)
}

/// Relies on `colored::Colorize::italic` for `ColoredString`: adds the
/// italic style to the styled text.
#[verifier::external_body]
fn italic(s: colored::ColoredString) -> colored::ColoredString {
    colored::Colorize::italic(s)
}

} // verus!
