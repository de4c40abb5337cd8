//! Workspace entity types: the identifiers the substrate observes.
use vstd::prelude::*;
use crate::substrate::error::SensoriumError;

verus! {

/// Unicode `White_Space`: the characters `str::trim` removes.
pub open spec fn is_white_space(c: char) -> bool {
    ||| ('\u{9}' <= c && c <= '\u{D}')
    ||| c == ' '
    ||| c == '\u{85}'
    ||| c == '\u{A0}'
    ||| c == '\u{1680}'
    ||| ('\u{2000}' <= c && c <= '\u{200A}')
    ||| c == '\u{2028}'
    ||| c == '\u{2029}'
    ||| c == '\u{202F}'
    ||| c == '\u{205F}'
    ||| c == '\u{3000}'
}

/// `s` without its leading white space.
pub open spec fn trim_start_chars(s: Seq<char>) -> Seq<char>
    decreases s.len(),
{
    if s.len() > 0 && is_white_space(s[0]) {
        trim_start_chars(s.drop_first())
    } else {
        s
    }
}

/// `s` without its trailing white space.
pub open spec fn trim_end_chars(s: Seq<char>) -> Seq<char>
    decreases s.len(),
{
    if s.len() > 0 && is_white_space(s.last()) {
        trim_end_chars(s.drop_last())
    } else {
        s
    }
}

/// `s` without leading and trailing white space.
pub open spec fn trim_chars(s: Seq<char>) -> Seq<char> {
    trim_end_chars(trim_start_chars(s))
}

/// What `str::to_lowercase` returns for a string (Unicode lowercase mapping).
pub uninterp spec fn lowercase_chars(s: Seq<char>) -> Seq<char>;

/// Whether `c` is Unicode `White_Space`.
fn white_space(c: char) -> (r: bool)
    ensures
        r == is_white_space(c),
{
    ('\u{9}' <= c && c <= '\u{D}') || c == ' ' || c == '\u{85}' || c == '\u{A0}' || c
        == '\u{1680}' || ('\u{2000}' <= c && c <= '\u{200A}') || c == '\u{2028}' || c
        == '\u{2029}' || c == '\u{202F}' || c == '\u{205F}' || c == '\u{3000}'
}

/// Leading white space does not change what trimming the start leaves.
proof fn lemma_trim_start_skip(s: Seq<char>, i: int)
    requires
        0 <= i <= s.len(),
        forall|k: int| 0 <= k < i ==> is_white_space(#[trigger] s[k]),
    ensures
        trim_start_chars(s) == trim_start_chars(s.subrange(i, s.len() as int)),
    decreases i,
{
    if i > 0 {
        let t = s.drop_first();
        assert forall|k: int| 0 <= k < i - 1 implies is_white_space(#[trigger] t[k]) by {
            assert(t[k] == s[k + 1]);
        }
        lemma_trim_start_skip(t, i - 1);
        assert(t.subrange(i - 1, t.len() as int) =~= s.subrange(i, s.len() as int));
    } else {
        assert(s.subrange(0, s.len() as int) =~= s);
    }
}

/// Trailing white space does not change what trimming the end leaves.
proof fn lemma_trim_end_skip(s: Seq<char>, j: int)
    requires
        0 <= j <= s.len(),
        forall|k: int| j <= k < s.len() ==> is_white_space(#[trigger] s[k]),
    ensures
        trim_end_chars(s) == trim_end_chars(s.subrange(0, j)),
    decreases s.len() - j,
{
    if j < s.len() {
        let t = s.drop_last();
        assert forall|k: int| j <= k < t.len() implies is_white_space(#[trigger] t[k]) by {
            assert(t[k] == s[k]);
        }
        lemma_trim_end_skip(t, j);
        assert(t.subrange(0, j) =~= s.subrange(0, j));
    } else {
        assert(s.subrange(0, j) =~= s);
    }
}

/// The string with leading and trailing Unicode `White_Space` removed, as
/// `str::trim` documents it.
fn str_trim(s: &str) -> (r: &str)
    ensures
        r@ == trim_chars(s@),
{
    let n = s.unicode_len();
    let mut i: usize = 0;
    while i < n && white_space(s.get_char(i))
        invariant
            i <= n,
            n == s@.len(),
            forall|k: int| 0 <= k < i ==> is_white_space(#[trigger] s@[k]),
        decreases n - i,
    {
        i = i + 1;
    }
    let mut j: usize = n;
    while j > i && white_space(s.get_char(j - 1))
        invariant
            i <= j <= n,
            n == s@.len(),
            forall|k: int| j <= k < n ==> is_white_space(#[trigger] s@[k]),
        decreases j - i,
    {
        j = j - 1;
    }
    proof {
        lemma_trim_start_skip(s@, i as int);
        let t = s@.subrange(i as int, n as int);
        assert(trim_start_chars(t) == t);
        assert forall|k: int| j - i <= k < t.len() implies is_white_space(#[trigger] t[k]) by {
            assert(t[k] == s@[i + k]);
        }
        lemma_trim_end_skip(t, j - i);
        let u = t.subrange(0, j - i);
        assert(u =~= s@.subrange(i as int, j as int));
        if u.len() > 0 {
            assert(u.last() == s@[j - 1]);
        }
        assert(trim_end_chars(u) == u);
    }
    s.substring_char(i, j)
}

/// Calls `str::to_lowercase`. Its Unicode case mapping takes pages to state,
/// so the result is named: it depends on the characters of `s` alone.
#[verifier::external_body]
fn str_to_lowercase(s: &str) -> (r: String)
    ensures
        r@ == lowercase_chars(s@),
{
    s.to_lowercase()
}

#[verifier::external_type_specification]
#[verifier::external_body]
pub struct ExPathBuf(std::path::PathBuf);

/// `PathBuf::clone` copies the path's bytes, so the clone holds the same
/// path.
pub assume_specification[ <std::path::PathBuf as Clone>::clone ](p: &std::path::PathBuf) -> (r:
    std::path::PathBuf)
    ensures
        r == *p,
;

/// The path `std::path::PathBuf::from` builds from a string with these
/// characters (it copies the string's bytes).
pub uninterp spec fn path_of_str(s: Seq<char>) -> std::path::PathBuf;

/// Calls `std::path::PathBuf::from` on a string; the path depends on the
/// string alone.
#[verifier::external_body]
fn path_from_str(s: &str) -> (r: std::path::PathBuf)
    ensures
        r == path_of_str(s@),
{
    std::path::PathBuf::from(s)
}

/// Reject empty or whitespace-only identifiers; accepted ones are trimmed.
pub(crate) fn validate_id(field: &'static str, raw: &str) -> (r: Result<String, SensoriumError>)
    ensures
        r is Ok <==> trim_chars(raw@).len() > 0,
        r matches Ok(s) ==> s@ == trim_chars(raw@),
        r matches Err(e) ==> e == (SensoriumError::EmptyIdentifier { field }),
{
    let trimmed = str_trim(raw);
    if trimmed.unicode_len() == 0 {
        return Err(SensoriumError::EmptyIdentifier { field });
    }
    Ok(trimmed.to_owned())
}

/// Platform-specific application identifier (bundle id, `wmclass`, ...).
#[derive(Debug, PartialEq, Eq, PartialOrd, Ord, Hash)]
pub struct AppId(String);

impl View for AppId {
    type V = Seq<char>;

    closed spec fn view(&self) -> Seq<char> {
        self.0@
    }
}

impl AppId {
    /// Construct an `AppId`, rejecting empty or whitespace-only input and
    /// trimming the rest.
    pub fn new(raw: &str) -> (r: Result<Self, SensoriumError>)
        ensures
            r is Ok <==> trim_chars(raw@).len() > 0,
            r matches Ok(id) ==> id@ == trim_chars(raw@),
            r matches Err(e) ==> e == (SensoriumError::EmptyIdentifier { field: "AppId" }),
    {
        match validate_id("AppId", raw) {
            Ok(s) => Ok(AppId(s)),
            Err(e) => Err(e),
        }
    }

    /// Construct without validation.
    pub fn from_string_unchecked(raw: String) -> (r: Self)
        ensures
            r@ == raw@,
    {
        AppId(raw)
    }

    /// Borrow the identifier string.
    pub fn as_str(&self) -> (r: &str)
        ensures
            r@ == self@,
    {
        self.0.as_str()
    }
}

/// Platform-specific window identifier, scoped within an application.
#[derive(Debug, PartialEq, Eq, PartialOrd, Ord, Hash)]
pub struct WindowId(String);

impl View for WindowId {
    type V = Seq<char>;

    closed spec fn view(&self) -> Seq<char> {
        self.0@
    }
}

impl WindowId {
    /// Construct a `WindowId`, rejecting empty or whitespace-only input and
    /// trimming the rest.
    pub fn new(raw: &str) -> (r: Result<Self, SensoriumError>)
        ensures
            r is Ok <==> trim_chars(raw@).len() > 0,
            r matches Ok(id) ==> id@ == trim_chars(raw@),
            r matches Err(e) ==> e == (SensoriumError::EmptyIdentifier { field: "WindowId" }),
    {
        match validate_id("WindowId", raw) {
            Ok(s) => Ok(WindowId(s)),
            Err(e) => Err(e),
        }
    }

    /// Construct without validation.
    pub fn from_string_unchecked(raw: String) -> (r: Self)
        ensures
            r@ == raw@,
    {
        WindowId(raw)
    }

    /// Borrow the identifier string.
    pub fn as_str(&self) -> (r: &str)
        ensures
            r@ == self@,
    {
        self.0.as_str()
    }
}

/// Window bounding rectangle in screen pixels, top-left origin.
#[derive(Debug, Clone, Copy, PartialEq, Eq, Hash, Structural)]
pub struct WindowRect {
    /// X coordinate of the top-left corner.
    pub x: i32,
    /// Y coordinate of the top-left corner.
    pub y: i32,
    /// Width in pixels.
    pub width: u32,
    /// Height in pixels.
    pub height: u32,
}

/// `a + b`, saturating at `i32::MAX`.
pub open spec fn saturating_add_unsigned(a: i32, b: u32) -> int {
    if a + b > i32::MAX {
        i32::MAX as int
    } else {
        a + b
    }
}

/// Whether the point `(x, y)` lies in the rectangle (right and bottom edges
/// excluded, both computed with saturation).
pub open spec fn rect_contains(r: WindowRect, x: i32, y: i32) -> bool {
    &&& x >= r.x
    &&& y >= r.y
    &&& x < saturating_add_unsigned(r.x, r.width)
    &&& y < saturating_add_unsigned(r.y, r.height)
}

fn add_unsigned_saturating(a: i32, b: u32) -> (r: i32)
    ensures
        r == saturating_add_unsigned(a, b),
{
    let wide: i64 = a as i64 + b as i64;
    if wide > i32::MAX as i64 {
        i32::MAX
    } else {
        wide as i32
    }
}

impl WindowRect {
    /// Whether a screen-space point falls inside this rectangle.
    pub fn contains(&self, x: i32, y: i32) -> (r: bool)
        ensures
            r == rect_contains(*self, x, y),
    {
        x >= self.x && y >= self.y && x < add_unsigned_saturating(self.x, self.width) && y
            < add_unsigned_saturating(self.y, self.height)
    }
}

/// A zero-sized rectangle contains no point.
pub proof fn lemma_empty_rect_contains_nothing(r: WindowRect, x: i32, y: i32)
    requires
        r.width == 0 || r.height == 0,
    ensures
        !rect_contains(r, x, y),
{
}

/// MIME type, stored lowercased and trimmed.
#[derive(Debug, PartialEq, Eq, Hash)]
pub struct MimeType(String);

impl View for MimeType {
    type V = Seq<char>;

    closed spec fn view(&self) -> Seq<char> {
        self.0@
    }
}

impl MimeType {
    /// Construct a `MimeType`: trim, reject empty input, lowercase.
    pub fn new(raw: &str) -> (r: Result<Self, SensoriumError>)
        ensures
            r is Ok <==> trim_chars(raw@).len() > 0,
            r matches Ok(m) ==> m@ == lowercase_chars(trim_chars(raw@)),
            r matches Err(e) ==> e == (SensoriumError::EmptyIdentifier { field: "MimeType" }),
    {
        let trimmed = str_trim(raw);
        if trimmed.unicode_len() == 0 {
            return Err(SensoriumError::EmptyIdentifier { field: "MimeType" });
        }
        Ok(MimeType(str_to_lowercase(trimmed)))
    }

    /// Construct without validation or normalization (read-back of stored
    /// values).
    pub fn from_string_unchecked(raw: String) -> (r: Self)
        ensures
            r@ == raw@,
    {
        MimeType(raw)
    }

    /// Borrow the canonical type string.
    pub fn as_str(&self) -> (r: &str)
        ensures
            r@ == self@,
    {
        self.0.as_str()
    }
}

/// Reference to a file the substrate has observed.
#[derive(Debug, PartialEq, Eq, Hash)]
pub struct FileRef {
    /// Path on the local filesystem.
    pub path: std::path::PathBuf,
    /// MIME type if known.
    pub mime: Option<MimeType>,
}

impl FileRef {
    /// Reference the file at `path`; no MIME type yet. The path is taken as
    /// given, not resolved.
    pub fn new(path: &str) -> (r: Self)
        ensures
            r.path == path_of_str(path@),
            r.mime is None,
    {
        FileRef { path: path_from_str(path), mime: None }
    }

    /// Reference the file at an existing path; no MIME type yet.
    pub fn from_path(path: std::path::PathBuf) -> (r: Self)
        ensures
            r.path == path,
            r.mime is None,
    {
        FileRef { path, mime: None }
    }

    /// Attach a known MIME type.
    pub fn with_mime(self, mime: MimeType) -> (r: Self)
        ensures
            r.path == self.path,
            r.mime == Some(mime),
    {
        FileRef { path: self.path, mime: Some(mime) }
    }
}

/// Reference to a code symbol within a file.
#[derive(Debug, PartialEq, Eq, Hash)]
pub struct SymbolRef {
    /// Owning file.
    pub file: FileRef,
    /// Fully-qualified symbol name.
    pub qualified_name: String,
    /// Symbol kind, as the language server reported it.
    pub kind: Option<String>,
}

impl SymbolRef {
    /// Construct from a file and qualified name; rejects empty names and
    /// trims the rest.
    pub fn new(file: FileRef, qualified_name: &str) -> (r: Result<Self, SensoriumError>)
        ensures
            r is Ok <==> trim_chars(qualified_name@).len() > 0,
            r matches Ok(s) ==> s.file == file && s.qualified_name@ == trim_chars(qualified_name@)
                && s.kind is None,
            r matches Err(e) ==> e == (SensoriumError::EmptyIdentifier {
                field: "SymbolRef.qualified_name",
            }),
    {
        match validate_id("SymbolRef.qualified_name", qualified_name) {
            Ok(name) => Ok(SymbolRef { file, qualified_name: name, kind: None }),
            Err(e) => Err(e),
        }
    }

    /// Attach a kind.
    pub fn with_kind(self, kind: String) -> (r: Self)
        ensures
            r.file == self.file,
            r.qualified_name == self.qualified_name,
            r.kind == Some(kind),
    {
        SymbolRef { file: self.file, qualified_name: self.qualified_name, kind: Some(kind) }
    }
}

/// A half-open byte span `[start, end)`, with `end >= start`.
#[derive(Debug, Clone, Copy, PartialEq, Eq, Hash, Structural)]
pub struct TextSpan {
    /// Byte offset of the span start.
    pub start: u64,
    /// Byte offset of the span end (exclusive).
    pub end: u64,
}

impl TextSpan {
    /// Construct a span, rejecting `end < start`.
    pub fn new(start: u64, end: u64) -> (r: Result<Self, SensoriumError>)
        ensures
            r is Ok <==> start <= end,
            r matches Ok(s) ==> s.start == start && s.end == end,
            r matches Err(e) ==> e == (SensoriumError::InvalidSpan { start, end }),
    {
        if end < start {
            return Err(SensoriumError::InvalidSpan { start, end });
        }
        Ok(TextSpan { start, end })
    }

    /// Length of the span in bytes.
    pub fn len(&self) -> (r: u64)
        requires
            self.start <= self.end,
        ensures
            r == self.end - self.start,
    {
        self.end - self.start
    }

    /// `true` for a zero-length span (a cursor position).
    pub fn is_empty(&self) -> (r: bool)
        ensures
            r == (self.start == self.end),
    {
        self.start == self.end
    }
}

/// A selection: a file plus a byte span within it.
#[derive(Debug, PartialEq, Eq, Hash)]
pub struct SelectionRef {
    /// Owning file.
    pub file: FileRef,
    /// Byte span within the file.
    pub span: TextSpan,
}

impl SelectionRef {
    /// Construct from a file and a span.
    pub fn new(file: FileRef, span: TextSpan) -> (r: Self)
        ensures
            r.file == file,
            r.span == span,
    {
        SelectionRef { file, span }
    }
}

/// A URL the substrate has observed, kept verbatim.
#[derive(Debug, PartialEq, Eq, Hash)]
pub struct Uri(String);

impl View for Uri {
    type V = Seq<char>;

    closed spec fn view(&self) -> Seq<char> {
        self.0@
    }
}

impl Uri {
    /// Construct a `Uri`, rejecting empty or whitespace-only input; an
    /// accepted value is kept verbatim.
    pub fn new(raw: &str) -> (r: Result<Self, SensoriumError>)
        ensures
            r is Ok <==> trim_chars(raw@).len() > 0,
            r matches Ok(u) ==> u@ == raw@,
            r matches Err(e) ==> e == (SensoriumError::EmptyIdentifier { field: "Uri" }),
    {
        match validate_id("Uri", raw) {
            Ok(_) => Ok(Uri(raw.to_owned())),
            Err(e) => Err(e),
        }
    }

    /// Construct without validation (read-back of stored values).
    pub fn from_string_unchecked(raw: String) -> (r: Self)
        ensures
            r@ == raw@,
    {
        Uri(raw)
    }

    /// Borrow the URI string.
    pub fn as_str(&self) -> (r: &str)
        ensures
            r@ == self@,
    {
        self.0.as_str()
    }
}

impl Clone for AppId {
    /// A copy of the same identifier.
    fn clone(&self) -> (r: Self)
        ensures
            r == *self,
    {
        AppId(self.0.clone())
    }
}

impl Clone for WindowId {
    /// A copy of the same identifier.
    fn clone(&self) -> (r: Self)
        ensures
            r == *self,
    {
        WindowId(self.0.clone())
    }
}

impl Clone for MimeType {
    /// A copy of the same type string.
    fn clone(&self) -> (r: Self)
        ensures
            r == *self,
    {
        MimeType(self.0.clone())
    }
}

impl Clone for Uri {
    /// A copy of the same URI.
    fn clone(&self) -> (r: Self)
        ensures
            r == *self,
    {
        Uri(self.0.clone())
    }
}

impl Clone for FileRef {
    /// A copy of the same path and MIME type.
    fn clone(&self) -> (r: Self)
        ensures
            r == *self,
    {
        let mime = match &self.mime {
            Some(m) => Some(m.clone()),
            None => None,
        };
        FileRef { path: self.path.clone(), mime }
    }
}

impl Clone for SymbolRef {
    /// A copy of the same file, name and kind.
    fn clone(&self) -> (r: Self)
        ensures
            r == *self,
    {
        let kind = match &self.kind {
            Some(k) => Some(k.clone()),
            None => None,
        };
        SymbolRef { file: self.file.clone(), qualified_name: self.qualified_name.clone(), kind }
    }
}

impl Clone for SelectionRef {
    /// A copy of the same file and span.
    fn clone(&self) -> (r: Self)
        ensures
            r == *self,
    {
        SelectionRef { file: self.file.clone(), span: self.span }
    }
}


/// Trimming is idempotent, and a trimmed identifier neither starts nor ends
/// with white space; so an accepted identifier passes validation again
/// unchanged.
pub proof fn lemma_trim_idempotent(s: Seq<char>)
    ensures
        trim_chars(trim_chars(s)) == trim_chars(s),
        trim_chars(s).len() > 0 ==> !is_white_space(trim_chars(s)[0]) && !is_white_space(
            trim_chars(s).last(),
        ),
{
    lemma_trim_start_stops(s);
    lemma_trim_end_stops(trim_start_chars(s));
    lemma_trim_end_keeps_start(trim_start_chars(s));
    lemma_trim_start_fixed(trim_chars(s));
    lemma_trim_end_fixed(trim_chars(s));
}

proof fn lemma_trim_start_stops(s: Seq<char>)
    ensures
        trim_start_chars(s).len() > 0 ==> !is_white_space(trim_start_chars(s)[0]),
    decreases s.len(),
{
    if s.len() > 0 && is_white_space(s[0]) {
        lemma_trim_start_stops(s.drop_first());
    }
}

proof fn lemma_trim_end_stops(s: Seq<char>)
    ensures
        trim_end_chars(s).len() > 0 ==> !is_white_space(trim_end_chars(s).last()),
    decreases s.len(),
{
    if s.len() > 0 && is_white_space(s.last()) {
        lemma_trim_end_stops(s.drop_last());
    }
}

/// Trimming the end keeps a prefix of the input.
proof fn lemma_trim_end_keeps_start(s: Seq<char>)
    ensures
        trim_end_chars(s).len() <= s.len(),
        trim_end_chars(s) == s.subrange(0, trim_end_chars(s).len() as int),
    decreases s.len(),
{
    if s.len() > 0 && is_white_space(s.last()) {
        lemma_trim_end_keeps_start(s.drop_last());
        assert(trim_end_chars(s) =~= s.subrange(0, trim_end_chars(s).len() as int));
    } else {
        assert(s =~= s.subrange(0, s.len() as int));
    }
}

proof fn lemma_trim_start_fixed(s: Seq<char>)
    requires
        s.len() > 0 ==> !is_white_space(s[0]),
    ensures
        trim_start_chars(s) == s,
{
}

proof fn lemma_trim_end_fixed(s: Seq<char>)
    requires
        s.len() > 0 ==> !is_white_space(s.last()),
    ensures
        trim_end_chars(s) == s,
{
}

} // verus!
