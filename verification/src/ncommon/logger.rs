use vstd::prelude::*;
use vstd::slice::slice_to_vec;
use vstd::string::StringSliceAdditionalSpecFns;
use vstd::utf8::valid_utf8;

verus! {

/// Where the log file goes unless another path is given.
pub const DEFAULT_LOG_PATH: &'static str = "sd:/ssbusync.log";

/// The tag, `[nsuite]` in ASCII, that marks this suite's own messages.
pub open spec fn mirror_tag() -> Seq<u8> {
    seq![0x5bu8, 0x6eu8, 0x73u8, 0x75u8, 0x69u8, 0x74u8, 0x65u8, 0x5du8]
}

/// `bytes` holds `tag` somewhere.
pub open spec fn holds_tag(bytes: Seq<u8>, tag: Seq<u8>) -> bool {
    exists|i: int| 0 <= i && i + tag.len() <= bytes.len() && #[trigger] bytes.subrange(i, i + tag.len()) == tag
}

/// The state of the log sinks.
pub struct LoggerState {
    file_open: bool,
    file_path: Option<String>,
    hook_installed: bool,
    mirror_all_plugins: bool,
}

/// Bytes to write: to the log file (when it is open) and to skyline's TCP logger.
pub struct LogOutput {
    pub file: Option<Vec<u8>>,
    pub tcp: Option<Vec<u8>>,
}

/// std's `core::str::from_utf8`, reduced to its result: the text when the
/// bytes are valid UTF-8, as its documentation says.
#[verifier::external_body]
pub(crate) fn str_from_utf8(data: &[u8]) -> (r: Option<&str>)
    ensures
        r is Some <==> valid_utf8(data@),
        r matches Some(t) ==> t.spec_bytes() == data@,
{
    core::str::from_utf8(data).ok()
}

/// `bytes` followed by a newline.
fn with_newline(bytes: &[u8]) -> (v: Vec<u8>)
    ensures
        v@ == bytes@.push(0x0au8),
{
    let mut v = slice_to_vec(bytes);
    v.push(0x0a);
    v
}

impl LoggerState {
    pub closed spec fn spec_file_open(self) -> bool {
        self.file_open
    }

    pub closed spec fn spec_file_path(self) -> Option<Seq<char>> {
        match self.file_path {
            Some(p) => Some(p@),
            None => None,
        }
    }

    pub closed spec fn spec_hook_installed(self) -> bool {
        self.hook_installed
    }

    pub closed spec fn spec_mirror_all(self) -> bool {
        self.mirror_all_plugins
    }

    pub fn new() -> (s: Self)
        ensures
            !s.spec_file_open(),
            s.spec_file_path() == None::<Seq<char>>,
            !s.spec_hook_installed(),
            !s.spec_mirror_all(),
    {
        LoggerState {
            file_open: false,
            file_path: None,
            hook_installed: false,
            mirror_all_plugins: false,
        }
    }

    /// Records the outcome of opening the log file at `path` (the default path
    /// when `None`); returns whether the file is open.
    pub fn init(&mut self, path: Option<&str>, opened: bool) -> (open: bool)
        ensures
            open == opened,
            final(self).spec_file_open() == opened,
            final(self).spec_file_path() == Some(effective_log_path_spec(path)),
            final(self).spec_hook_installed() == old(self).spec_hook_installed(),
            final(self).spec_mirror_all() == old(self).spec_mirror_all(),
    {
        let p = effective_log_path(path);
        self.file_open = opened;
        self.file_path = Some(p.to_owned());
        opened
    }

    /// `init` with the default path.
    pub fn init_default(&mut self, opened: bool) -> (open: bool)
        ensures
            open == opened,
            final(self).spec_file_open() == opened,
            final(self).spec_file_path() == Some(DEFAULT_LOG_PATH@),
            final(self).spec_hook_installed() == old(self).spec_hook_installed(),
            final(self).spec_mirror_all() == old(self).spec_mirror_all(),
    {
        self.init(None, opened)
    }

    pub fn current_file_path(&self) -> (p: Option<String>)
        ensures
            match p {
                Some(s) => self.spec_file_path() == Some(s@),
                None => self.spec_file_path() == None::<Seq<char>>,
            },
    {
        match &self.file_path {
            Some(s) => Some(s.clone()),
            None => None,
        }
    }

    /// Writes `text` as is: to the file when it is open, and to TCP.
    pub fn log(&self, text: &str) -> (out: LogOutput)
        ensures
            out.tcp matches Some(t) && t@ == text.spec_bytes(),
            self.spec_file_open() ==> (out.file matches Some(f) && f@ == text.spec_bytes()),
            !self.spec_file_open() ==> out.file is None,
    {
        let bytes = text.as_bytes();
        let file = if self.file_open {
            Some(slice_to_vec(bytes))
        } else {
            None
        };
        LogOutput { file, tcp: Some(slice_to_vec(bytes)) }
    }

    /// Writes `text` followed by a newline: to the file when it is open, and to TCP.
    pub fn log_line(&self, text: &str) -> (out: LogOutput)
        ensures
            out.tcp matches Some(t) && t@ == text.spec_bytes().push(0x0au8),
            self.spec_file_open() ==> (out.file matches Some(f) && f@ == text.spec_bytes().push(
                0x0au8,
            )),
            !self.spec_file_open() ==> out.file is None,
    {
        let bytes = text.as_bytes();
        let file = if self.file_open {
            Some(with_newline(bytes))
        } else {
            None
        };
        LogOutput { file, tcp: Some(with_newline(bytes)) }
    }

    /// Writes a line of bytes from C: as a text line when it is valid UTF-8,
    /// otherwise to the file alone.
    pub fn write_c_string_line(&self, data: &[u8]) -> (out: LogOutput)
        ensures
            valid_utf8(data@) ==> (out.tcp matches Some(t) && t@ == data@.push(0x0au8)),
            !valid_utf8(data@) ==> out.tcp is None,
            self.spec_file_open() ==> (out.file matches Some(f) && f@ == data@.push(0x0au8)),
            !self.spec_file_open() ==> out.file is None,
    {
        match str_from_utf8(data) {
            Some(text) => self.log_line(text),
            None => {
                let file = if self.file_open {
                    Some(with_newline(data))
                } else {
                    None
                };
                LogOutput { file, tcp: None }
            },
        }
    }

    /// Whether a message another plugin logs is copied to the file: all are
    /// when mirroring all plugins, otherwise only this suite's tagged ones.
    pub fn should_mirror_message(&self, message: &str) -> (b: bool)
        ensures
            b == (self.spec_mirror_all() || holds_tag(message.spec_bytes(), mirror_tag())),
    {
        if self.mirror_all_plugins {
            return true;
        }
        contains_tag(message.as_bytes())
    }

    /// Whether raw bytes sent to skyline's TCP logger are copied to the file:
    /// nothing is for an empty message; text goes by `should_mirror_message`,
    /// other bytes only when mirroring all plugins.
    pub fn should_mirror_raw(&self, data: &[u8]) -> (b: bool)
        ensures
            b == (data@.len() > 0 && (if valid_utf8(data@) {
                self.spec_mirror_all() || holds_tag(data@, mirror_tag())
            } else {
                self.spec_mirror_all()
            })),
    {
        if data.len() == 0 {
            return false;
        }
        match str_from_utf8(data) {
            Some(text) => self.should_mirror_message(text),
            None => self.mirror_all_plugins,
        }
    }

    /// Completes installing the hook on skyline's TCP logger: it is installed
    /// when the hook produced a trampoline. Returns whether it is installed.
    pub fn finish_log_hook_install(&mut self, trampoline: usize) -> (installed: bool)
        ensures
            installed == (old(self).spec_hook_installed() || trampoline != 0),
            final(self).spec_hook_installed() == installed,
            final(self).spec_file_open() == old(self).spec_file_open(),
            final(self).spec_file_path() == old(self).spec_file_path(),
            final(self).spec_mirror_all() == old(self).spec_mirror_all(),
    {
        if self.hook_installed {
            return true;
        }
        if trampoline == 0 {
            return false;
        }
        self.hook_installed = true;
        true
    }

    pub fn global_skyline_log_hook_installed(&self) -> (b: bool)
        ensures
            b == self.spec_hook_installed(),
    {
        self.hook_installed
    }

    pub fn set_mirror_all_plugins(&mut self, enabled: bool)
        ensures
            final(self).spec_mirror_all() == enabled,
            final(self).spec_file_open() == old(self).spec_file_open(),
            final(self).spec_file_path() == old(self).spec_file_path(),
            final(self).spec_hook_installed() == old(self).spec_hook_installed(),
    {
        self.mirror_all_plugins = enabled;
    }

    pub fn mirror_all_plugins(&self) -> (b: bool)
        ensures
            b == self.spec_mirror_all(),
    {
        self.mirror_all_plugins
    }
}

/// The path logging goes to: the one given, or the default.
pub open spec fn effective_log_path_spec(path: Option<&str>) -> Seq<char> {
    match path {
        Some(p) => p@,
        None => DEFAULT_LOG_PATH@,
    }
}

pub fn effective_log_path<'a>(path: Option<&'a str>) -> (p: &'a str)
    ensures
        p@ == effective_log_path_spec(path),
{
    match path {
        Some(p) => p,
        None => DEFAULT_LOG_PATH,
    }
}

/// Whether `bytes` holds the `[nsuite]` tag.
fn contains_tag(bytes: &[u8]) -> (b: bool)
    ensures
        b == holds_tag(bytes@, mirror_tag()),
{
    let tag: [u8; 8] = [0x5b, 0x6e, 0x73, 0x75, 0x69, 0x74, 0x65, 0x5d];
    assert(tag@ =~= mirror_tag());
    if bytes.len() < 8 {
        assert(!holds_tag(bytes@, mirror_tag()));
        return false;
    }
    let n: usize = bytes.len();
    let last: usize = n - 8;
    let mut i: usize = 0;
    while i <= last
        invariant
            n == bytes@.len(),
            last + 8 == n,
            i <= last + 1,
            tag@ == mirror_tag(),
            forall|j: int| 0 <= j < i ==> #[trigger] bytes@.subrange(j, j + 8) != mirror_tag(),
        decreases last + 1 - i,
    {
        let mut k: usize = 0;
        while k < 8
            invariant
                k <= 8,
                n == bytes@.len(),
                i + 8 <= n,
                tag@ == mirror_tag(),
                forall|m: int| 0 <= m < k ==> bytes@[i + m] == tag@[m],
            ensures
                k <= 8,
                forall|m: int| 0 <= m < k ==> bytes@[i + m] == tag@[m],
                k < 8 ==> bytes@[i + k] != tag@[k as int],
            decreases 8 - k,
        {
            if bytes[i + k] != tag[k] {
                break;
            }
            k += 1;
        }
        if k == 8 {
            assert(bytes@.subrange(i as int, i + 8) =~= mirror_tag());
            return true;
        }
        assert(bytes@.subrange(i as int, i + 8) != mirror_tag()) by {
            assert(bytes@.subrange(i as int, i + 8)[k as int] == bytes@[i + k]);
        }
        i += 1;
    }
    assert(!holds_tag(bytes@, mirror_tag())) by {
        if holds_tag(bytes@, mirror_tag()) {
            let j = choose|j: int|
                0 <= j && j + mirror_tag().len() <= bytes@.len() && #[trigger] bytes@.subrange(
                    j,
                    j + mirror_tag().len(),
                ) == mirror_tag();
            assert(bytes@.subrange(j, j + 8) == mirror_tag());
        }
    }
    false
}

} // verus!
