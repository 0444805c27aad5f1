//! The state behind a handle as programs in other languages drive it: the
//! flags it is made with, the order in which data is written, closed and
//! rendered, and the distinction between file names and addresses.
//!
//! Nothing here reads, parses or draws. Each function decides what is to
//! happen next and records what has happened; the caller does the work in
//! between and reports how it went.

use crate::number::Number;
use crate::number::ONE_BITS;
use std::path::PathBuf;
use url::Url;
use vstd::prelude::*;

verus! {

/// The flag for documents of unlimited size.
pub const FLAG_UNLIMITED: u32 = 1;

/// The flag for keeping the data of images.
pub const FLAG_KEEP_IMAGE_DATA: u32 = 2;

/// The flags that a handle is made with, as a set of bits.
#[derive(Debug, Clone, Copy, PartialEq, Eq, Structural)]
pub struct HandleFlags {
    pub bits: u32,
}

/// The flags that loading reads.
#[derive(Debug, Clone, Copy, PartialEq, Eq, Structural)]
pub struct LoadFlags {
    pub unlimited_size: bool,
    pub keep_image_data: bool,
}

impl HandleFlags {
    /// Whether every flag of `other` is set.
    pub open spec fn spec_contains(self, other: HandleFlags) -> bool {
        self.bits & other.bits == other.bits
    }

    /// No flag.
    pub fn empty() -> (flags: HandleFlags)
        ensures
            flags.bits == 0,
    {
        HandleFlags { bits: 0 }
    }

    /// The flag for documents of unlimited size.
    pub fn unlimited() -> (flags: HandleFlags)
        ensures
            flags.bits == FLAG_UNLIMITED,
    {
        HandleFlags { bits: FLAG_UNLIMITED }
    }

    /// The flag for keeping the data of images.
    pub fn keep_image_data() -> (flags: HandleFlags)
        ensures
            flags.bits == FLAG_KEEP_IMAGE_DATA,
    {
        HandleFlags { bits: FLAG_KEEP_IMAGE_DATA }
    }

    /// The flags among `bits` that exist. Other bits are dropped.
    pub fn from_bits_truncate(bits: u32) -> (flags: HandleFlags)
        ensures
            flags.bits == bits & 3,
    {
        assert(1u32 | 2u32 == 3u32) by (bit_vector);
        HandleFlags { bits: bits & (FLAG_UNLIMITED | FLAG_KEEP_IMAGE_DATA) }
    }

    pub fn contains(&self, other: HandleFlags) -> (yes: bool)
        ensures
            yes == self.spec_contains(other),
    {
        self.bits & other.bits == other.bits
    }

    /// Sets the flags of `other`.
    pub fn insert(&mut self, other: HandleFlags)
        ensures
            final(self).bits == old(self).bits | other.bits,
    {
        self.bits = self.bits | other.bits;
    }
}

impl Default for LoadFlags {
    fn default() -> (flags: LoadFlags)
        ensures
            flags == (LoadFlags { unlimited_size: false, keep_image_data: false }),
    {
        LoadFlags { unlimited_size: false, keep_image_data: false }
    }
}

impl From<HandleFlags> for LoadFlags {
    fn from(flags: HandleFlags) -> (load_flags: LoadFlags) {
        LoadFlags {
            unlimited_size: flags.contains(HandleFlags::unlimited()),
            keep_image_data: flags.contains(HandleFlags::keep_image_data()),
        }
    }
}

impl vstd::std_specs::convert::FromSpecImpl<HandleFlags> for LoadFlags {
    open spec fn obeys_from_spec() -> bool {
        true
    }

    open spec fn from_spec(flags: HandleFlags) -> LoadFlags {
        LoadFlags {
            unlimited_size: flags.spec_contains(HandleFlags { bits: FLAG_UNLIMITED }),
            keep_image_data: flags.spec_contains(HandleFlags { bits: FLAG_KEEP_IMAGE_DATA }),
        }
    }
}

impl From<LoadFlags> for HandleFlags {
    fn from(lflags: LoadFlags) -> (hflags: HandleFlags) {
        let mut hflags = HandleFlags::empty();
        if lflags.unlimited_size {
            hflags.insert(HandleFlags::unlimited());
        }
        if lflags.keep_image_data {
            hflags.insert(HandleFlags::keep_image_data());
        }
        proof {
            assert(0u32 | 1u32 == 1u32 && 0u32 | 2u32 == 2u32 && 1u32 | 2u32 == 3u32)
                by (bit_vector);
        }
        hflags
    }
}

impl vstd::std_specs::convert::FromSpecImpl<LoadFlags> for HandleFlags {
    open spec fn obeys_from_spec() -> bool {
        true
    }

    open spec fn from_spec(lflags: LoadFlags) -> HandleFlags {
        HandleFlags {
            bits: ((if lflags.unlimited_size {
                FLAG_UNLIMITED
            } else {
                0u32
            }) + (if lflags.keep_image_data {
                FLAG_KEEP_IMAGE_DATA
            } else {
                0u32
            })) as u32,
        }
    }
}

/// The flags of a handle say no more and no less than the flags that loading
/// reads: turning the one into the other and back gives the same flags, or,
/// starting from bits, the bits that are flags.
pub proof fn flags_round_trip(lflags: LoadFlags, bits: u32)
    ensures
        <LoadFlags as vstd::std_specs::convert::FromSpec<HandleFlags>>::from_spec(
            <HandleFlags as vstd::std_specs::convert::FromSpec<LoadFlags>>::from_spec(lflags),
        ) == lflags,
        <HandleFlags as vstd::std_specs::convert::FromSpec<LoadFlags>>::from_spec(
            <LoadFlags as vstd::std_specs::convert::FromSpec<HandleFlags>>::from_spec(
                HandleFlags { bits },
            ),
        ).bits == bits & 3,
{
    assert(0u32 & 1u32 != 1u32 && 0u32 & 2u32 != 2u32 && 1u32 & 1u32 == 1u32 && 1u32 & 2u32 != 2u32
        && 2u32 & 1u32 != 1u32 && 2u32 & 2u32 == 2u32 && 3u32 & 1u32 == 1u32 && 3u32 & 2u32 == 2u32)
        by (bit_vector);
    let one: u32 = if bits & 1 == 1 {
        1
    } else {
        0
    };
    let two: u32 = if bits & 2 == 2 {
        2
    } else {
        0
    };
    assert(bits & 3 == one + two) by (bit_vector)
        requires
            one == (if bits & 1 == 1 {
                1u32
            } else {
                0u32
            }),
            two == (if bits & 2 == 2 {
                2u32
            } else {
                0u32
            }),
    ;
}

/// Why loading failed.
#[derive(Debug, Clone, PartialEq, Eq)]
pub enum LoadingError {
    /// The data is no well-formed document.
    XmlParseError(String),
    /// Anything else, in words.
    Other(String),
}

/// Why rendering failed.
#[derive(Debug, Clone, PartialEq, Eq)]
pub enum RenderingError {
    /// The renderer failed, with its words.
    RenderingError(String),
    /// No document has been loaded into the handle.
    HandleIsNotLoaded,
}

/// A misuse of a handle that the caller is to be warned of.
#[derive(Debug, Clone, Copy, PartialEq, Eq, Structural)]
pub enum Critical {
    BaseUrlAfterStart,
    WriteAfterClose,
    ReadStreamAfterStart,
    NotLoaded,
    StillLoading,
    ClosedWithError,
    StylesheetBeforeLoaded,
}

/// How far loading has come.
#[derive(Debug)]
pub enum LoadState<H> {
    /// Nothing has happened yet.
    Start,
    /// Data is being written piece by piece.
    Loading { buffer: Vec<u8> },
    /// The document has been loaded.
    ClosedOk { handle: H },
    /// Loading has failed.
    ClosedError,
}

/// The size of a document in whole pixels, and the size of its fonts.
#[derive(Debug, Clone, Copy, PartialEq, Eq, Structural)]
pub struct RsvgDimensionData {
    pub width: i32,
    pub height: i32,
    pub em: Number,
    pub ex: Number,
}

/// The position of an element in whole pixels.
#[derive(Debug, Clone, Copy, PartialEq, Eq, Structural)]
pub struct RsvgPositionData {
    pub x: i32,
    pub y: i32,
}

/// A rectangle by its corner and its size.
#[derive(Debug, Clone, Copy, PartialEq, Eq, Structural)]
pub struct RsvgRectangle {
    pub x: Number,
    pub y: Number,
    pub width: Number,
    pub height: Number,
}

/// Whether the caller's size function is being asked right now. The function
/// itself stays with the caller.
#[derive(Debug)]
pub struct SizeCallback {
    pub in_loop: bool,
}

/// The resolution in dots per inch, as it was set.
#[derive(Debug, Clone, Copy, PartialEq, Eq, Structural)]
pub struct Dpi {
    pub x: Number,
    pub y: Number,
}

/// The address that relative references are resolved against.
#[derive(Debug)]
pub struct BaseUrl {
    pub inner: Option<Url>,
}

/// The settings of a handle.
#[derive(Debug)]
pub struct CHandleInner {
    pub dpi: Dpi,
    pub load_flags: LoadFlags,
    pub base_url: BaseUrl,
    pub size_callback: SizeCallback,
    pub is_testing: bool,
}

/// A handle: its settings, and how far loading has come. `H` is the loaded
/// document.
#[derive(Debug)]
pub struct CHandle<H> {
    pub inner: CHandleInner,
    pub load_state: LoadState<H>,
}

/// A file name or an address.
#[derive(Debug)]
pub enum PathOrUrl {
    Path(PathBuf),
    Url(Url),
}

/// `Url` of the `url` crate: an address that has been parsed. Nothing is known
/// of what is in it.
#[verifier::external_type_specification]
#[verifier::external_body]
pub struct ExUrl(Url);

/// `PathBuf` of the standard library: a file name. Nothing is known of what
/// is in it.
#[verifier::external_type_specification]
#[verifier::external_body]
pub struct ExPathBuf(PathBuf);

/// Calls `Url::parse` of the `url` crate: the address that the text spells,
/// or nothing where the parser rejects the text. Nothing is claimed of the
/// result.
#[verifier::external_body]
fn url_parse(s: &str) -> (url: Option<Url>) {
    Url::parse(s).ok()
}

/// Calls `Url::origin` of the `url` crate and asks the origin with
/// `Origin::is_tuple` whether it is one of scheme, host and port. Nothing is
/// claimed of the result.
#[verifier::external_body]
fn url_origin_is_tuple(url: &Url) -> (yes: bool) {
    url.origin().is_tuple()
}

/// Calls `Url::scheme` of the `url` crate: the scheme of the address, as
/// text of its own. Nothing is claimed of the result.
#[verifier::external_body]
fn url_scheme(url: &Url) -> (scheme: String) {
    url.scheme().to_string()
}

/// Calls `Url::to_file_path` of the `url` crate: the file that the address
/// names, or nothing where it names none on this machine. Nothing is claimed
/// of the result.
#[verifier::external_body]
fn url_to_file_path(url: &Url) -> (path: Option<PathBuf>) {
    url.to_file_path().ok()
}

/// Calls `Url::as_str` of the `url` crate: the address as text of its own.
/// Nothing is claimed of the result.
#[verifier::external_body]
fn url_as_str(url: &Url) -> (text: String) {
    url.as_str().to_string()
}

/// Calls `PathBuf::from` of the standard library: the file name that the
/// text spells. Nothing is claimed of the result.
#[verifier::external_body]
fn path_from_str(s: &str) -> (path: PathBuf) {
    PathBuf::from(s)
}

impl Critical {
    /// The warning in words.
    pub fn message(&self) -> (text: &'static str)
        ensures
            text@ == (match *self {
                Critical::BaseUrlAfterStart =>
                    "Please set the base file or URI before loading any data into RsvgHandle"@,
                Critical::WriteAfterClose => "Handle must not be closed in order to write to it"@,
                Critical::ReadStreamAfterStart =>
                    "handle must not be already loaded in order to call rsvg_handle_read_stream_sync()"@,
                Critical::NotLoaded => "Handle has not been loaded"@,
                Critical::StillLoading => "Handle is still loading; call rsvg_handle_close() first"@,
                Critical::ClosedWithError =>
                    "Handle could not read or parse the SVG; did you check for errors during the loading stage?"@,
                Critical::StylesheetBeforeLoaded =>
                    "handle must already be loaded in order to call rsvg_handle_set_stylesheet()"@,
            }),
    {
        match *self {
            Critical::BaseUrlAfterStart => {
                "Please set the base file or URI before loading any data into RsvgHandle"
            },
            Critical::WriteAfterClose => "Handle must not be closed in order to write to it",
            Critical::ReadStreamAfterStart => {
                "handle must not be already loaded in order to call rsvg_handle_read_stream_sync()"
            },
            Critical::NotLoaded => "Handle has not been loaded",
            Critical::StillLoading => "Handle is still loading; call rsvg_handle_close() first",
            Critical::ClosedWithError => {
                "Handle could not read or parse the SVG; did you check for errors during the loading stage?"
            },
            Critical::StylesheetBeforeLoaded => {
                "handle must already be loaded in order to call rsvg_handle_set_stylesheet()"
            },
        }
    }
}

impl RenderingError {
    /// The error in words.
    pub fn message(&self) -> (text: String)
        ensures
            text@ == (match *self {
                RenderingError::RenderingError(words) => words@,
                RenderingError::HandleIsNotLoaded => "SVG data is not loaded into handle"@,
            }),
    {
        match self {
            RenderingError::RenderingError(words) => words.clone(),
            RenderingError::HandleIsNotLoaded => "SVG data is not loaded into handle".to_owned(),
        }
    }
}

impl<H> LoadState<H> {
    /// Records how loading went, and hands a failure on.
    pub fn set_from_loading_result(&mut self, result: Result<H, LoadingError>) -> (outcome: Result<
        (),
        LoadingError,
    >)
        ensures
            match result {
                Ok(handle) => *final(self) == (LoadState::ClosedOk { handle }) && outcome is Ok,
                Err(e) => *final(self) == LoadState::<H>::ClosedError && outcome == Err::<
                    (),
                    LoadingError,
                >(e),
            },
    {
        match result {
            Ok(handle) => {
                *self = LoadState::ClosedOk { handle };
                Ok(())
            },
            Err(e) => {
                *self = LoadState::ClosedError;
                Err(e)
            },
        }
    }
}

impl RsvgDimensionData {
    /// The dimensions that stand for a failure: nothing of any size.
    pub fn empty() -> (dimensions: RsvgDimensionData)
        ensures
            dimensions == (RsvgDimensionData {
                width: 0,
                height: 0,
                em: Number { bits: 0 },
                ex: Number { bits: 0 },
            }),
    {
        RsvgDimensionData { width: 0, height: 0, em: Number::zero(), ex: Number::zero() }
    }

    /// Whether there is nothing to render: a document without width or
    /// without height.
    pub fn is_empty(&self) -> (nothing: bool)
        ensures
            nothing == (self.width == 0 || self.height == 0),
    {
        self.width == 0 || self.height == 0
    }
}

impl SizeCallback {
    pub fn new() -> (callback: SizeCallback)
        ensures
            !callback.in_loop,
    {
        SizeCallback { in_loop: false }
    }

    /// Notes that the size function is about to be asked.
    pub fn start_loop(&mut self)
        requires
            !old(self).in_loop,
        ensures
            final(self).in_loop,
    {
        self.in_loop = true;
    }

    /// Notes that the size function has answered.
    pub fn end_loop(&mut self)
        requires
            old(self).in_loop,
        ensures
            !final(self).in_loop,
    {
        self.in_loop = false;
    }

    pub fn get_in_loop(&self) -> (in_loop: bool)
        ensures
            in_loop == self.in_loop,
    {
        self.in_loop
    }
}

impl Default for SizeCallback {
    fn default() -> (callback: SizeCallback)
        ensures
            !callback.in_loop,
    {
        SizeCallback { in_loop: false }
    }
}

impl Dpi {
    pub fn new(x: Number, y: Number) -> (dpi: Dpi)
        ensures
            dpi == (Dpi { x, y }),
    {
        Dpi { x, y }
    }
}

impl Default for Dpi {
    /// No resolution has been set.
    fn default() -> (dpi: Dpi)
        ensures
            dpi == (Dpi { x: Number { bits: 0 }, y: Number { bits: 0 } }),
    {
        Dpi { x: Number::zero(), y: Number::zero() }
    }
}

impl BaseUrl {
    pub fn set(&mut self, url: Url)
        ensures
            final(self).inner == Some(url),
    {
        self.inner = Some(url);
    }

    pub fn get(&self) -> (url: Option<&Url>)
        ensures
            match url {
                Some(u) => self.inner == Some(*u),
                None => self.inner is None,
            },
    {
        self.inner.as_ref()
    }
}

impl Default for BaseUrl {
    fn default() -> (base: BaseUrl)
        ensures
            base.inner is None,
    {
        BaseUrl { inner: None }
    }
}

impl<H> CHandle<H> {
    /// A handle with which nothing has happened yet.
    pub fn new() -> (handle: CHandle<H>)
        ensures
            handle.load_state is Start,
            handle.inner.dpi == (Dpi { x: Number { bits: 0 }, y: Number { bits: 0 } }),
            handle.inner.load_flags == (LoadFlags { unlimited_size: false, keep_image_data: false }),
            handle.inner.base_url.inner is None,
            !handle.inner.size_callback.in_loop,
            !handle.inner.is_testing,
    {
        CHandle {
            inner: CHandleInner {
                dpi: Dpi::default(),
                load_flags: LoadFlags::default(),
                base_url: BaseUrl::default(),
                size_callback: SizeCallback::default(),
                is_testing: false,
            },
            load_state: LoadState::Start,
        }
    }

    /// Sets the base address, which can only be done before any data is
    /// loaded: later the call is a misuse and changes nothing. Text that
    /// spells no address changes nothing either.
    pub fn set_base_url(&mut self, url: &str) -> (misuse: Option<Critical>)
        ensures
            final(self).load_state == old(self).load_state,
            final(self).inner.dpi == old(self).inner.dpi,
            final(self).inner.load_flags == old(self).inner.load_flags,
            final(self).inner.size_callback == old(self).inner.size_callback,
            final(self).inner.is_testing == old(self).inner.is_testing,
            old(self).load_state is Start ==> misuse is None && (final(self).inner.base_url.inner
                is Some || final(self).inner.base_url == old(self).inner.base_url),
            !(old(self).load_state is Start) ==> misuse == Some(Critical::BaseUrlAfterStart)
                && final(self).inner.base_url == old(self).inner.base_url,
    {
        match self.load_state {
            LoadState::Start => {},
            _ => {
                return Some(Critical::BaseUrlAfterStart);
            },
        }
        match url_parse(url) {
            Some(u) => {
                self.inner.base_url.set(u);
            },
            None => {},
        }
        None
    }

    /// The base address as text.
    pub fn get_base_url(&self) -> (url: Option<String>)
        ensures
            url is Some <==> self.inner.base_url.inner is Some,
    {
        match self.inner.base_url.get() {
            Some(url) => Some(url_as_str(url)),
            None => None,
        }
    }

    pub fn set_dpi_x(&mut self, dpi_x: Number)
        ensures
            final(self).inner.dpi == (Dpi { x: dpi_x, y: old(self).inner.dpi.y }),
            final(self).load_state == old(self).load_state,
            final(self).inner.load_flags == old(self).inner.load_flags,
            final(self).inner.base_url == old(self).inner.base_url,
            final(self).inner.size_callback == old(self).inner.size_callback,
            final(self).inner.is_testing == old(self).inner.is_testing,
    {
        let dpi = self.inner.dpi;
        self.inner.dpi = Dpi::new(dpi_x, dpi.y);
    }

    pub fn set_dpi_y(&mut self, dpi_y: Number)
        ensures
            final(self).inner.dpi == (Dpi { x: old(self).inner.dpi.x, y: dpi_y }),
            final(self).load_state == old(self).load_state,
            final(self).inner.load_flags == old(self).inner.load_flags,
            final(self).inner.base_url == old(self).inner.base_url,
            final(self).inner.size_callback == old(self).inner.size_callback,
            final(self).inner.is_testing == old(self).inner.is_testing,
    {
        let dpi = self.inner.dpi;
        self.inner.dpi = Dpi::new(dpi.x, dpi_y);
    }

    pub fn get_dpi_x(&self) -> (dpi_x: Number)
        ensures
            dpi_x == self.inner.dpi.x,
    {
        self.inner.dpi.x
    }

    pub fn get_dpi_y(&self) -> (dpi_y: Number)
        ensures
            dpi_y == self.inner.dpi.y,
    {
        self.inner.dpi.y
    }

    pub fn set_flags(&mut self, flags: HandleFlags)
        ensures
            final(self).inner.load_flags == <LoadFlags as vstd::std_specs::convert::FromSpec<
                HandleFlags,
            >>::from_spec(flags),
            final(self).load_state == old(self).load_state,
            final(self).inner.dpi == old(self).inner.dpi,
            final(self).inner.base_url == old(self).inner.base_url,
            final(self).inner.size_callback == old(self).inner.size_callback,
            final(self).inner.is_testing == old(self).inner.is_testing,
    {
        self.inner.load_flags = LoadFlags::from(flags);
    }

    pub fn get_flags(&self) -> (flags: HandleFlags)
        ensures
            flags == <HandleFlags as vstd::std_specs::convert::FromSpec<LoadFlags>>::from_spec(
                self.inner.load_flags,
            ),
    {
        HandleFlags::from(self.inner.load_flags)
    }

    pub fn set_testing(&mut self, is_testing: bool)
        ensures
            final(self).inner.is_testing == is_testing,
            final(self).load_state == old(self).load_state,
            final(self).inner.dpi == old(self).inner.dpi,
            final(self).inner.load_flags == old(self).inner.load_flags,
            final(self).inner.base_url == old(self).inner.base_url,
            final(self).inner.size_callback == old(self).inner.size_callback,
    {
        self.inner.is_testing = is_testing;
    }

    /// Takes a piece of data. The first piece starts the loading, each later
    /// one is put behind those before it. To write to a handle that has been
    /// closed is a misuse and changes nothing.
    pub fn write(&mut self, buf: &[u8]) -> (misuse: Option<Critical>)
        ensures
            final(self).inner == old(self).inner,
            match old(self).load_state {
                LoadState::Start => misuse is None && (final(self).load_state matches LoadState::Loading {
                    buffer,
                } && buffer@ == buf@),
                LoadState::Loading { buffer: before } => misuse is None && (final(self).load_state matches LoadState::Loading { buffer } && buffer@ == before@ + buf@),
                _ => misuse == Some(Critical::WriteAfterClose) && final(self).load_state == old(self).load_state,
            },
    {
        match &mut self.load_state {
            LoadState::Start => {
                let mut buffer: Vec<u8> = Vec::new();
                buffer.extend_from_slice(buf);
                self.load_state = LoadState::Loading { buffer };
                None
            },
            LoadState::Loading { buffer } => {
                buffer.extend_from_slice(buf);
                None
            },
            _ => Some(Critical::WriteAfterClose),
        }
    }

    /// Closes the handle. A handle to which nothing was written fails. One
    /// that has been closed before stays as it is. For one that is loading,
    /// the answer is `None`: the data written is to be parsed now, and the
    /// outcome handed to `set_from_loading_result`.
    pub fn close(&mut self) -> (outcome: Option<Result<(), LoadingError>>)
        ensures
            final(self).inner == old(self).inner,
            match old(self).load_state {
                LoadState::Start => {
                    &&& final(self).load_state is ClosedError
                    &&& outcome matches Some(Err(LoadingError::XmlParseError(words)))
                    &&& words@ == "caller did not write any data"@
                },
                LoadState::Loading { .. } => outcome is None && final(self).load_state == old(self).load_state,
                _ => outcome == Some(Ok::<(), LoadingError>(())) && final(self).load_state == old(self).load_state,
            },
    {
        match self.load_state {
            LoadState::Start => {
                self.load_state = LoadState::ClosedError;
                Some(
                    Err(LoadingError::XmlParseError("caller did not write any data".to_owned())),
                )
            },
            LoadState::Loading { .. } => None,
            LoadState::ClosedOk { .. } => Some(Ok(())),
            LoadState::ClosedError => Some(Ok(())),
        }
    }

    /// Whether a stream may be read into the handle: only where nothing has
    /// happened with it yet. Anything else is a misuse.
    pub fn read_stream_sync(&self) -> (permission: Result<(), (LoadingError, Critical)>)
        ensures
            permission is Ok <==> self.load_state is Start,
            permission matches Err((e, misuse)) ==> {
                &&& e matches LoadingError::Other(words)
                &&& words@ == "API ordering"@
                &&& misuse == Critical::ReadStreamAfterStart
            },
    {
        match self.load_state {
            LoadState::Start => Ok(()),
            _ => Err((LoadingError::Other("API ordering".to_owned()), Critical::ReadStreamAfterStart)),
        }
    }

    /// The loaded document. To ask for it in any other state is a misuse.
    pub fn get_handle_ref(&self) -> (handle: Result<&H, (RenderingError, Critical)>)
        ensures
            match self.load_state {
                LoadState::Start => handle == Err::<&H, (RenderingError, Critical)>(
                    (RenderingError::HandleIsNotLoaded, Critical::NotLoaded),
                ),
                LoadState::Loading { .. } => handle == Err::<&H, (RenderingError, Critical)>(
                    (RenderingError::HandleIsNotLoaded, Critical::StillLoading),
                ),
                LoadState::ClosedError => handle == Err::<&H, (RenderingError, Critical)>(
                    (RenderingError::HandleIsNotLoaded, Critical::ClosedWithError),
                ),
                LoadState::ClosedOk { handle: loaded } => handle == Ok::<
                    &H,
                    (RenderingError, Critical),
                >(&loaded),
            },
    {
        match &self.load_state {
            LoadState::Start => Err((RenderingError::HandleIsNotLoaded, Critical::NotLoaded)),
            LoadState::Loading { .. } => Err(
                (RenderingError::HandleIsNotLoaded, Critical::StillLoading),
            ),
            LoadState::ClosedError => Err(
                (RenderingError::HandleIsNotLoaded, Critical::ClosedWithError),
            ),
            LoadState::ClosedOk { handle } => Ok(handle),
        }
    }

    /// Whether a stylesheet may be given to the handle: only where a
    /// document has been loaded. Anything else is a misuse.
    pub fn set_stylesheet(&self) -> (permission: Result<(), (LoadingError, Critical)>)
        ensures
            permission is Ok <==> self.load_state is ClosedOk,
            permission matches Err((e, misuse)) ==> {
                &&& e matches LoadingError::Other(words)
                &&& words@ == "API ordering"@
                &&& misuse == Critical::StylesheetBeforeLoaded
            },
    {
        match self.load_state {
            LoadState::ClosedOk { .. } => Ok(()),
            _ => Err(
                (LoadingError::Other("API ordering".to_owned()), Critical::StylesheetBeforeLoaded),
            ),
        }
    }

    /// Starts measuring the document. While the caller's size function is
    /// being asked, the answer is a size of one by one, so that a size
    /// function that asks for the size in turn does not go round in circles.
    /// Else the answer is `None`: the document is to be measured now, and
    /// what was found handed to `finish_dimensions_sub`.
    pub fn get_dimensions_sub(&mut self) -> (in_loop: Option<RsvgDimensionData>)
        ensures
            final(self).load_state == old(self).load_state,
            final(self).inner.dpi == old(self).inner.dpi,
            final(self).inner.load_flags == old(self).inner.load_flags,
            final(self).inner.base_url == old(self).inner.base_url,
            final(self).inner.is_testing == old(self).inner.is_testing,
            final(self).inner.size_callback.in_loop,
            in_loop == (if old(self).inner.size_callback.in_loop {
                Some(
                    RsvgDimensionData {
                        width: 1,
                        height: 1,
                        em: Number { bits: ONE_BITS },
                        ex: Number { bits: ONE_BITS },
                    },
                )
            } else {
                None
            }),
    {
        if self.inner.size_callback.get_in_loop() {
            return Some(
                RsvgDimensionData { width: 1, height: 1, em: Number::one(), ex: Number::one() },
            );
        }
        self.inner.size_callback.start_loop();
        None
    }

    /// Ends measuring the document, and hands on what was found.
    pub fn finish_dimensions_sub<E>(&mut self, measured: Result<RsvgDimensionData, E>) -> (dimensions:
        Result<RsvgDimensionData, E>)
        requires
            old(self).inner.size_callback.in_loop,
        ensures
            dimensions == measured,
            !final(self).inner.size_callback.in_loop,
            final(self).load_state == old(self).load_state,
            final(self).inner.dpi == old(self).inner.dpi,
            final(self).inner.load_flags == old(self).inner.load_flags,
            final(self).inner.base_url == old(self).inner.base_url,
            final(self).inner.is_testing == old(self).inner.is_testing,
    {
        self.inner.size_callback.end_loop();
        measured
    }

    /// The dimensions, or those that stand for a failure.
    pub fn get_dimensions_or_empty<E>(dimensions: Result<RsvgDimensionData, E>) -> (shown:
        RsvgDimensionData)
        ensures
            shown == (match dimensions {
                Ok(d) => d,
                Err(_) => RsvgDimensionData {
                    width: 0,
                    height: 0,
                    em: Number { bits: 0 },
                    ex: Number { bits: 0 },
                },
            }),
    {
        match dimensions {
            Ok(d) => d,
            Err(_) => RsvgDimensionData::empty(),
        }
    }
}

impl PathOrUrl {
    /// What the parts of an address make of it: an address with an origin of
    /// scheme, host and port, or with the scheme `file`, stays an address.
    /// Any other is the file that it names, and nothing where it names none.
    pub open spec fn spec_classify(
        url: Url,
        origin_is_tuple: bool,
        scheme: Seq<char>,
        file_path: Option<PathBuf>,
    ) -> Result<PathOrUrl, ()> {
        if origin_is_tuple || scheme == "file"@ {
            Ok(PathOrUrl::Url(url))
        } else {
            match file_path {
                Some(path) => Ok(PathOrUrl::Path(path)),
                None => Err(()),
            }
        }
    }

    /// Decides from the parts of an address whether it is one.
    pub fn classify(url: Url, origin_is_tuple: bool, scheme: &String, file_path: Option<PathBuf>) -> (found:
        Result<PathOrUrl, ()>)
        ensures
            found == PathOrUrl::spec_classify(url, origin_is_tuple, scheme@, file_path),
    {
        let file = "file".to_owned();
        if origin_is_tuple || *scheme == file {
            Ok(PathOrUrl::Url(url))
        } else {
            match file_path {
                Some(path) => Ok(PathOrUrl::Path(path)),
                None => Err(()),
            }
        }
    }

    /// Reads text as an address, and the address as a file name where it is
    /// no address of a kind that is looked up. Fails where the text spells no
    /// address at all, or one that is neither.
    fn try_from_str(s: &str) -> (found: Result<PathOrUrl, ()>)
        requires
            s@.len() > 0,
    {
        match url_parse(s) {
            None => Err(()),
            Some(url) => {
                let origin_is_tuple = url_origin_is_tuple(&url);
                let scheme = url_scheme(&url);
                let file_path = url_to_file_path(&url);
                PathOrUrl::classify(url, origin_is_tuple, &scheme, file_path)
            },
        }
    }

    /// Tells a file name from an address. Text that reads as an address of a
    /// kind that is looked up is one; any other text is a file name. Empty
    /// text is neither, and the only error.
    pub fn new(s: &str) -> (found: Result<PathOrUrl, String>)
        ensures
            found is Err <==> s@.len() == 0,
            found matches Err(words) ==> words@ == "invalid empty filename"@,
    {
        if s.is_empty() {
            return Err("invalid empty filename".to_owned());
        }
        match PathOrUrl::try_from_str(s) {
            Ok(found) => Ok(found),
            Err(_) => Ok(PathOrUrl::Path(path_from_str(s))),
        }
    }
}

} // verus!
