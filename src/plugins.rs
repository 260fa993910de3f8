//! Plugin error type, plugin file checks and the built-in plugins.

use vstd::prelude::*;
use vstd::string::StrSliceExecFns;
use vstd::string::StringExecFns;

verus! {

#[verifier::external_type_specification]
#[verifier::external_body]
pub struct ExIoError(std::io::Error);

/// Error type for plugin operations.
#[derive(Clone, Debug)]
pub enum PluginError {
    /// The audio format is not supported by any plugin.
    FormatNotSupported(String),
    /// The specified file was not found.
    FileNotFound(String),
    /// An error occurred while decoding audio.
    DecodingError(String),
    /// The specified audio device was not found.
    DeviceNotFound(String),
    /// An error occurred while configuring an audio device.
    ConfigurationError(String),
    /// An error occurred while processing audio.
    ProcessingError(String),
    /// An invalid parameter was provided.
    InvalidParameter(String),
    /// The plugin is not initialized.
    NotInitialized(String),
    /// A generic error.
    Other(String),
}

/// Result type for plugin operations.
pub type PluginResult<T> = Result<T, PluginError>;

/// The text of an error: its kind's label followed by its message.
pub open spec fn error_text(e: PluginError) -> Seq<char> {
    match e {
        PluginError::FormatNotSupported(m) => "Format not supported: "@ + m@,
        PluginError::FileNotFound(m) => "File not found: "@ + m@,
        PluginError::DecodingError(m) => "Decoding error: "@ + m@,
        PluginError::DeviceNotFound(m) => "Device not found: "@ + m@,
        PluginError::ConfigurationError(m) => "Configuration error: "@ + m@,
        PluginError::ProcessingError(m) => "Processing error: "@ + m@,
        PluginError::InvalidParameter(m) => "Invalid parameter: "@ + m@,
        PluginError::NotInitialized(m) => "Not initialized: "@ + m@,
        PluginError::Other(m) => "Error: "@ + m@,
    }
}

fn labelled(label: &str, msg: &String) -> (r: String)
    ensures
        r@ == label@ + msg@,
{
    let mut r = String::from_str(label);
    r.append(msg.as_str());
    r
}

impl PluginError {
    /// The error's text, as shown to users.
    pub fn to_string(&self) -> (r: String)
        ensures
            r@ == error_text(*self),
    {
        match self {
            PluginError::FormatNotSupported(m) => labelled("Format not supported: ", m),
            PluginError::FileNotFound(m) => labelled("File not found: ", m),
            PluginError::DecodingError(m) => labelled("Decoding error: ", m),
            PluginError::DeviceNotFound(m) => labelled("Device not found: ", m),
            PluginError::ConfigurationError(m) => labelled("Configuration error: ", m),
            PluginError::ProcessingError(m) => labelled("Processing error: ", m),
            PluginError::InvalidParameter(m) => labelled("Invalid parameter: ", m),
            PluginError::NotInitialized(m) => labelled("Not initialized: ", m),
            PluginError::Other(m) => labelled("Error: ", m),
        }
    }
}

impl From<String> for PluginError {
    fn from(msg: String) -> (r: PluginError) {
        PluginError::Other(msg)
    }
}

impl vstd::std_specs::convert::FromSpecImpl<String> for PluginError {
    open spec fn obeys_from_spec() -> bool {
        true
    }

    open spec fn from_spec(msg: String) -> PluginError {
        PluginError::Other(msg)
    }
}

impl<'a> From<&'a str> for PluginError {
    fn from(msg: &'a str) -> (r: PluginError) {
        PluginError::Other(String::from_str(msg))
    }
}

impl<'a> vstd::std_specs::convert::FromSpecImpl<&'a str> for PluginError {
    open spec fn obeys_from_spec() -> bool {
        false
    }

    open spec fn from_spec(msg: &'a str) -> PluginError {
        arbitrary()
    }
}

/// Relies on the `Display` impl of `std::io::Error` for the error's text.
#[verifier::external_body]
fn io_error_text(err: &std::io::Error) -> String {
    err.to_string()
}

impl From<std::io::Error> for PluginError {
    fn from(err: std::io::Error) -> (r: PluginError) {
        PluginError::Other(io_error_text(&err))
    }
}

impl vstd::std_specs::convert::FromSpecImpl<std::io::Error> for PluginError {
    open spec fn obeys_from_spec() -> bool {
        false
    }

    open spec fn from_spec(err: std::io::Error) -> PluginError {
        arbitrary()
    }
}

/// The extension of a path as `std::path::Path::extension` finds it, or the
/// empty string where it finds none or it is not valid UTF-8.
pub uninterp spec fn extension_of(path: Seq<char>) -> Seq<char>;

/// The `Debug` rendering of a path (quoted, with escapes).
pub uninterp spec fn path_debug_of(path: Seq<char>) -> Seq<char>;

/// The lower-case form of a string as `str::to_lowercase` gives it.
pub uninterp spec fn lower_of(s: Seq<char>) -> Seq<char>;

/// Relies on `std::path::Path::exists`: whether the file system has an entry
/// at `path` now.
#[verifier::external_body]
pub(crate) fn path_exists(path: &str) -> bool {
    std::path::Path::new(path).exists()
}

/// Relies on `std::path::Path::extension`: the extension of the path's file
/// name; the empty string where there is none.
#[verifier::external_body]
pub(crate) fn path_extension(path: &str) -> (r: String)
    ensures
        r@ == extension_of(path@),
{
    std::path::Path::new(path).extension().and_then(|e| e.to_str()).unwrap_or("").to_string()
}

/// Relies on the `Debug` impl of `std::path::Path`.
#[verifier::external_body]
fn path_debug(path: &str) -> (r: String)
    ensures
        r@ == path_debug_of(path@),
{
    format!("{:?}", std::path::Path::new(path))
}

/// Relies on `str::to_lowercase`, a function of the characters alone.
#[verifier::external_body]
pub(crate) fn lowercase(s: &str) -> (r: String)
    ensures
        r@ == lower_of(s@),
{
    s.to_lowercase()
}

/// Extensions of shared libraries that can hold a plugin.
pub open spec fn is_library_extension(ext: Seq<char>) -> bool {
    ext == "so"@ || ext == "dll"@ || ext == "dylib"@
}

pub open spec fn bad_extension_text(ext: Seq<char>) -> Seq<char> {
    "Invalid plugin file extension: "@ + ext
}

pub(crate) fn str_eq(a: &str, b: &str) -> (r: bool)
    ensures
        r == (a@ == b@),
{
    let n = a.unicode_len();
    if n != b.unicode_len() {
        return false;
    }
    let mut i: usize = 0;
    while i < n
        invariant
            n == a@.len(),
            n == b@.len(),
            i <= n,
            forall|k: int| 0 <= k < i ==> a@[k] == b@[k],
        decreases n - i,
    {
        if a.get_char(i) != b.get_char(i) {
            return false;
        }
        i = i + 1;
    }
    assert(a@ =~= b@);
    true
}

/// Plugin loader. Plugins are built in; shared libraries are only checked.
pub struct PluginLoader;

impl PluginLoader {
    /// Accepts the extensions of shared libraries, and nothing else.
    pub fn check_plugin_extension(ext: &str) -> (r: PluginResult<()>)
        ensures
            r is Ok <==> is_library_extension(ext@),
            r matches Err(e) ==> e matches PluginError::Other(m) && m@ == bad_extension_text(ext@),
    {
        if str_eq(ext, "so") || str_eq(ext, "dll") || str_eq(ext, "dylib") {
            Ok(())
        } else {
            let mut m = String::from_str("Invalid plugin file extension: ");
            m.append(ext);
            Err(PluginError::Other(m))
        }
    }

    /// The verdict on a plugin file from what is known of it: whether it
    /// exists, its extension, and how its path is shown in messages. A missing
    /// file is `FileNotFound`; an existing one passes exactly when it carries
    /// the extension of a shared library.
    pub fn plugin_file_check(exists: bool, ext: &str, shown: String) -> (r: PluginResult<()>)
        ensures
            plugin_check_outcome(r, exists, ext@, shown@),
    {
        if !exists {
            return Err(PluginError::FileNotFound(shown));
        }
        Self::check_plugin_extension(ext)
    }

    /// Checks a plugin file before loading: it must exist and carry the
    /// extension of a shared library. Whether it exists is read from the
    /// file system at the time of the call.
    pub fn validate_plugin_file(path: &str) -> (r: PluginResult<()>)
        ensures
            plugin_check_outcome(r, true, extension_of(path@), path_debug_of(path@))
                || plugin_check_outcome(r, false, extension_of(path@), path_debug_of(path@)),
    {
        let exists = path_exists(path);
        let ext = path_extension(path);
        Self::plugin_file_check(exists, ext.as_str(), path_debug(path))
    }
}

/// What a plugin file check returns, given whether the file exists, its
/// extension and its path as shown in messages.
pub open spec fn plugin_check_outcome(
    r: PluginResult<()>,
    exists: bool,
    ext: Seq<char>,
    shown: Seq<char>,
) -> bool {
    if !exists {
        r matches Err(PluginError::FileNotFound(m)) && m@ == shown
    } else if is_library_extension(ext) {
        r is Ok
    } else {
        r matches Err(PluginError::Other(m)) && m@ == bad_extension_text(ext)
    }
}

/// Information about an audio device.
#[derive(Clone, Debug)]
pub struct AudioDevice {
    pub id: String,
    pub name: String,
    pub channels: u16,
    pub sample_rates: Vec<u32>,
}

/// Audio configuration for output devices.
#[derive(Clone, Copy, Debug, PartialEq, Eq)]
pub struct AudioConfig {
    pub sample_rate: u32,
    pub channels: u16,
    pub buffer_size: u32,
}

impl Default for AudioConfig {
    /// 44.1 kHz stereo with a 2048-frame buffer.
    fn default() -> (r: AudioConfig)
        ensures
            r.sample_rate == 44100,
            r.channels == 2,
            r.buffer_size == 2048,
    {
        AudioConfig { sample_rate: 44100, channels: 2, buffer_size: 2048 }
    }
}

/// The built-in reverb effect plugin.
pub struct ReverbDSPPlugin;

impl ReverbDSPPlugin {
    pub fn name(&self) -> (r: &'static str)
        ensures
            r@ == "Reverb"@,
    {
        "Reverb"
    }

    pub fn version(&self) -> (r: &'static str)
        ensures
            r@ == "0.1.0"@,
    {
        "0.1.0"
    }

    pub fn category(&self) -> (r: &'static str)
        ensures
            r@ == "Effect"@,
    {
        "Effect"
    }
}

/// Whether a lower-cased extension is one the AAC plugin reads.
pub open spec fn is_aac_extension(lower_ext: Seq<char>) -> bool {
    lower_ext == "aac"@ || lower_ext == "m4a"@
}

/// The built-in AAC input plugin.
pub struct AACInputPlugin;

impl AACInputPlugin {
    pub fn name(&self) -> (r: &'static str)
        ensures
            r@ == "AAC Input"@,
    {
        "AAC Input"
    }

    pub fn version(&self) -> (r: &'static str)
        ensures
            r@ == "0.1.0"@,
    {
        "0.1.0"
    }

    /// The file extensions that the plugin reads.
    pub fn supported_formats(&self) -> (r: Vec<&'static str>)
        ensures
            r@.len() == 2,
            r@[0]@ == "aac"@,
            r@[1]@ == "m4a"@,
    {
        let mut v: Vec<&'static str> = Vec::new();
        v.push("aac");
        v.push("m4a");
        v
    }

    /// Whether the path's extension, in any case, is one the plugin reads.
    pub fn can_handle(&self, path: &str) -> (r: bool)
        ensures
            r == is_aac_extension(lower_of(extension_of(path@))),
    {
        let ext = path_extension(path);
        let lower = lowercase(ext.as_str());
        str_eq(lower.as_str(), "aac") || str_eq(lower.as_str(), "m4a")
    }
}

} // verus!
