//! Encoding of multipart/form-data request bodies.
//!
//! A body is a list of segments: for each entry a boundary marker, a
//! `Content-Disposition` header line and the entry's value, then one closing
//! marker. The segments are joined with CRLF.

use rand::Rng;
use vstd::prelude::*;
use vstd::utf8::encode_utf8;

use crate::headers::{raw_headers, set_raw_header};
use crate::path::{file_name, file_name_of};
use crate::request::RequestBody;

verus! {

/// The number of characters of a generated boundary.
pub const BOUNDARY_LENGTH: usize = 32;

/// A character that a generated boundary may hold: an ASCII letter or digit.
pub open spec fn is_boundary_char(c: char) -> bool {
    ('a' <= c && c <= 'z') || ('A' <= c && c <= 'Z') || ('0' <= c && c <= '9')
}

/// A boundary as `MultipartBody::new` draws it.
pub open spec fn is_generated_boundary(b: Seq<char>) -> bool {
    &&& b.len() == BOUNDARY_LENGTH
    &&& forall|i: int| 0 <= i < b.len() ==> is_boundary_char(#[trigger] b[i])
}

/// The marker that opens each entry: `--<boundary>`.
pub open spec fn marker_of(boundary: Seq<char>) -> Seq<char> {
    "--"@ + boundary
}

/// The marker that ends the body: `--<boundary>--`.
pub open spec fn closing_of(boundary: Seq<char>) -> Seq<char> {
    "--"@ + boundary + "--"@
}

/// The value of the `Content-Type` header of a body with this boundary.
pub open spec fn content_type_of(boundary: Seq<char>) -> Seq<char> {
    "multipart/form-data; boundary="@ + boundary
}

/// The header line of a text field.
pub open spec fn text_disposition(key: Seq<char>) -> Seq<char> {
    "Content-Disposition: form-data; name=\""@ + key + "\"\r\n"@
}

/// The header line of a file field.
pub open spec fn file_disposition(key: Seq<char>, filename: Seq<char>) -> Seq<char> {
    "Content-Disposition: form-data; name=\""@ + key + "\"; filename=\""@ + filename + "\"\r\n"@
}

/// The segments of one entry, given as its header line and its value.
pub open spec fn entry_segments(boundary: Seq<char>, entry: (Seq<char>, Seq<char>)) -> Seq<
    Seq<char>,
> {
    seq![marker_of(boundary), entry.0, entry.1]
}

/// The segments of a list of entries, in the order of the list.
pub open spec fn render(boundary: Seq<char>, entries: Seq<(Seq<char>, Seq<char>)>) -> Seq<
    Seq<char>,
>
    decreases entries.len(),
{
    if entries.len() == 0 {
        seq![]
    } else {
        render(boundary, entries.drop_last()) + entry_segments(boundary, entries.last())
    }
}

/// Segments joined with CRLF between each two.
pub open spec fn join_crlf(parts: Seq<Seq<char>>) -> Seq<char>
    decreases parts.len(),
{
    if parts.len() == 0 {
        seq![]
    } else if parts.len() == 1 {
        parts[0]
    } else {
        join_crlf(parts.drop_last()) + "\r\n"@ + parts.last()
    }
}

/// The finished body: the entries' segments and the closing marker, joined.
pub open spec fn payload_of(boundary: Seq<char>, entries: Seq<(Seq<char>, Seq<char>)>) -> Seq<
    char,
> {
    join_crlf(render(boundary, entries).push(closing_of(boundary)))
}

/// Entry `k` of a list takes segments `3k`, `3k + 1` and `3k + 2` of its
/// rendering: its marker, its header line, its value. So the segments of an
/// earlier entry all come before those of a later one.
pub proof fn lemma_render_layout(boundary: Seq<char>, entries: Seq<(Seq<char>, Seq<char>)>)
    ensures
        render(boundary, entries).len() == 3 * entries.len(),
        forall|k: int|
            0 <= k < entries.len() ==> render(boundary, entries).subrange(3 * k, 3 * k + 3)
                == entry_segments(boundary, #[trigger] entries[k]),
    decreases entries.len(),
{
    if entries.len() > 0 {
        let front = entries.drop_last();
        lemma_render_layout(boundary, front);
        let r = render(boundary, entries);
        assert forall|k: int| 0 <= k < entries.len() implies r.subrange(3 * k, 3 * k + 3)
            == entry_segments(boundary, #[trigger] entries[k]) by {
            if k < front.len() {
                assert(r.subrange(3 * k, 3 * k + 3) =~= render(boundary, front).subrange(
                    3 * k,
                    3 * k + 3,
                ));
                assert(front[k] == entries[k]);
            } else {
                assert(r.subrange(3 * k, 3 * k + 3) =~= entry_segments(boundary, entries.last()));
            }
        }
    }
}

/// Writing entries one after another keeps the order of the calls: after the
/// entries `before` come those of the next call, and the segments of entry
/// `i` stand strictly before those of any later entry `j`.
pub proof fn lemma_call_order_kept(
    boundary: Seq<char>,
    entries: Seq<(Seq<char>, Seq<char>)>,
    i: int,
    j: int,
)
    requires
        0 <= i < j < entries.len(),
    ensures
        render(boundary, entries).subrange(3 * i, 3 * i + 3) == entry_segments(
            boundary,
            entries[i],
        ),
        render(boundary, entries).subrange(3 * j, 3 * j + 3) == entry_segments(
            boundary,
            entries[j],
        ),
        3 * i + 3 <= 3 * j,
{
    lemma_render_layout(boundary, entries);
}

/// Joining segments with one more at the end puts that one last, after a CRLF
/// when there was something before it.
pub proof fn lemma_join_push(parts: Seq<Seq<char>>, last: Seq<char>)
    ensures
        join_crlf(parts.push(last)) == if parts.len() == 0 {
            last
        } else {
            join_crlf(parts) + "\r\n"@ + last
        },
{
    assert(parts.push(last).drop_last() =~= parts);
}

/// The finished body always ends with the closing marker `--<boundary>--`.
pub proof fn lemma_payload_ends_with_closing(
    boundary: Seq<char>,
    entries: Seq<(Seq<char>, Seq<char>)>,
)
    ensures
        closing_of(boundary).is_suffix_of(payload_of(boundary, entries)),
{
    let parts = render(boundary, entries);
    let c = closing_of(boundary);
    lemma_join_push(parts, c);
    let p = payload_of(boundary, entries);
    assert(p.subrange(p.len() - c.len(), p.len() as int) =~= c);
}

/// A body with no entries finishes as the closing marker alone.
pub proof fn lemma_empty_payload(boundary: Seq<char>)
    ensures
        payload_of(boundary, seq![]) == closing_of(boundary),
{
    let none: Seq<(Seq<char>, Seq<char>)> = seq![];
    lemma_join_push(render(boundary, none), closing_of(boundary));
}

/// The boundary that `set_headers` advertises in `Content-Type` is the one
/// that opens every entry and closes the finished body.
pub proof fn lemma_advertised_boundary_is_used(body: MultipartBody)
    requires
        body.wf(),
    ensures
        body.required_headers() == map![
            "content-type"@ => seq![encode_utf8("multipart/form-data; boundary="@ + body.boundary_view())],
        ],
        forall|k: int|
            0 <= k < body.entries().len() ==> #[trigger] body.segments()[3 * k] == "--"@
                + body.boundary_view(),
        ("--"@ + body.boundary_view() + "--"@).is_suffix_of(body.payload()),
{
    let b = body.boundary_view();
    lemma_render_layout(b, body.entries());
    assert forall|k: int| 0 <= k < body.entries().len() implies #[trigger] body.segments()[3
        * k] == "--"@ + b by {
        assert(body.segments().subrange(3 * k, 3 * k + 3) == entry_segments(
            b,
            body.entries()[k],
        ));
        assert(body.segments()[3 * k] == body.segments().subrange(3 * k, 3 * k + 3)[0]);
    }
    lemma_payload_ends_with_closing(b, body.entries());
}

/// A text field: a key and the value written under it.
pub struct MultipartTextEntry {
    key: String,
    value: String,
}

impl View for MultipartTextEntry {
    /// The key and the value.
    type V = (Seq<char>, Seq<char>);

    closed spec fn view(&self) -> (Seq<char>, Seq<char>) {
        (self.key@, self.value@)
    }
}

impl MultipartTextEntry {
    /// A text field with this key and value.
    pub fn new(key: String, value: String) -> (r: Self)
        ensures
            r@ == (key@, value@),
    {
        MultipartTextEntry { key, value }
    }

    /// `Content-Disposition: form-data; name="<key>"` and a line end.
    pub fn headers(&self) -> (r: String)
        ensures
            r@ == text_disposition(self@.0),
    {
        let mut r = String::from_str("Content-Disposition: form-data; name=\"");
        r.append(self.key.as_str());
        r.append("\"\r\n");
        r
    }

    /// The value, as it was given.
    pub fn value(&self) -> (r: String)
        ensures
            r@ == self@.1,
    {
        self.value.clone()
    }
}

/// A file field: the key, the path of the file, and what the file holds.
pub struct MultipartFileEntry {
    key: String,
    path: String,
    contents: String,
}

impl View for MultipartFileEntry {
    /// The key, the path and the contents.
    type V = (Seq<char>, Seq<char>, Seq<char>);

    closed spec fn view(&self) -> (Seq<char>, Seq<char>, Seq<char>) {
        (self.key@, self.path@, self.contents@)
    }
}

impl MultipartFileEntry {
    /// A file field with this key, read from `path`, which held `contents`.
    /// The path must end in a file name.
    pub fn new(key: String, path: String, contents: String) -> (r: Self)
        requires
            file_name_of(path@) is Some,
        ensures
            r@ == (key@, path@, contents@),
            r.wf(),
    {
        MultipartFileEntry { key, path, contents }
    }

    /// The path ends in a file name.
    pub open spec fn wf(&self) -> bool {
        file_name_of(self@.1) is Some
    }

    /// The file name that the header line gives.
    pub open spec fn filename(&self) -> Seq<char> {
        file_name_of(self@.1)->Some_0
    }

    /// `Content-Disposition: form-data; name="<key>"; filename="<name>"` and a
    /// line end, where `<name>` is the final component of the path.
    pub fn headers(&self) -> (r: String)
        requires
            self.wf(),
        ensures
            r@ == file_disposition(self@.0, self.filename()),
    {
        let name = match file_name(self.path.as_str()) {
            Some(name) => name,
            None => {
                proof {
                    assert(false);
                }
                String::new()
            },
        };
        let mut r = String::from_str("Content-Disposition: form-data; name=\"");
        r.append(self.key.as_str());
        r.append("\"; filename=\"");
        r.append(name.as_str());
        r.append("\"\r\n");
        r
    }

    /// What the file held.
    pub fn value(&self) -> (r: String)
        ensures
            r@ == self@.2,
    {
        self.contents.clone()
    }
}

/// One entry of a multipart body.
pub enum MultipartEntry {
    Text(MultipartTextEntry),
    File(MultipartFileEntry),
}

impl MultipartEntry {
    /// A file entry's path ends in a file name.
    pub open spec fn wf(&self) -> bool {
        match self {
            MultipartEntry::Text(_) => true,
            MultipartEntry::File(f) => f.wf(),
        }
    }

    /// The header line of the entry.
    pub open spec fn headers_spec(&self) -> Seq<char> {
        match self {
            MultipartEntry::Text(t) => text_disposition(t@.0),
            MultipartEntry::File(f) => file_disposition(f@.0, f.filename()),
        }
    }

    /// The value of the entry.
    pub open spec fn value_spec(&self) -> Seq<char> {
        match self {
            MultipartEntry::Text(t) => t@.1,
            MultipartEntry::File(f) => f@.2,
        }
    }

    /// The entry as its header line and value.
    pub open spec fn rendered(&self) -> (Seq<char>, Seq<char>) {
        (self.headers_spec(), self.value_spec())
    }

    /// The header line of the entry.
    pub fn headers(&self) -> (r: String)
        requires
            self.wf(),
        ensures
            r@ == self.headers_spec(),
    {
        match self {
            MultipartEntry::Text(t) => t.headers(),
            MultipartEntry::File(f) => f.headers(),
        }
    }

    /// The value of the entry.
    pub fn value(&self) -> (r: String)
        ensures
            r@ == self.value_spec(),
    {
        match self {
            MultipartEntry::Text(t) => t.value(),
            MultipartEntry::File(f) => f.value(),
        }
    }

    /// Appends the boundary marker and the entry's header line to `body`.
    pub fn write_headers(&self, body: &mut MultipartBody)
        requires
            self.wf(),
        ensures
            final(body).boundary_view() == old(body).boundary_view(),
            final(body).entries() == old(body).entries(),
            final(body).segments() == old(body).segments().push(
                marker_of(old(body).boundary_view()),
            ).push(self.headers_spec()),
    {
        let marker = body.full_boundary();
        body.push_segment(marker);
        body.push_segment(self.headers());
    }

    /// Appends the entry's value to `body`.
    pub fn write_value(&self, body: &mut MultipartBody)
        ensures
            final(body).boundary_view() == old(body).boundary_view(),
            final(body).entries() == old(body).entries(),
            final(body).segments() == old(body).segments().push(self.value_spec()),
    {
        body.push_segment(self.value());
    }
}

/// A multipart/form-data body under construction: its boundary, and the
/// segments written so far.
pub struct MultipartBody {
    boundary: String,
    parts: Vec<String>,
    entries: Ghost<Seq<(Seq<char>, Seq<char>)>>,
}

impl MultipartBody {
    /// The boundary.
    pub closed spec fn boundary_view(&self) -> Seq<char> {
        self.boundary@
    }

    /// The segments written so far.
    pub closed spec fn segments(&self) -> Seq<Seq<char>> {
        self.parts@.map_values(|s: String| s@)
    }

    /// The entries written so far, each as its header line and value.
    pub closed spec fn entries(&self) -> Seq<(Seq<char>, Seq<char>)> {
        self.entries@
    }

    /// The segments are those of the entries, in the order they were written.
    pub open spec fn wf(&self) -> bool {
        self.segments() == render(self.boundary_view(), self.entries())
    }

    /// The finished body, as `for_request` gives it.
    pub open spec fn payload(&self) -> Seq<char> {
        payload_of(self.boundary_view(), self.entries())
    }

    /// An empty body with a freshly drawn boundary of `BOUNDARY_LENGTH`
    /// letters and digits.
    pub fn new() -> (r: Self)
        ensures
            r.wf(),
            r.entries() == Seq::<(Seq<char>, Seq<char>)>::empty(),
            is_generated_boundary(r.boundary_view()),
    {
        MultipartBody::with_boundary(MultipartBody::generate_boundary())
    }

    /// An empty body that separates its entries with `boundary`.
    pub fn with_boundary(boundary: String) -> (r: Self)
        ensures
            r.wf(),
            r.entries() == Seq::<(Seq<char>, Seq<char>)>::empty(),
            r.boundary_view() == boundary@,
    {
        let ghost none: Seq<(Seq<char>, Seq<char>)> = seq![];
        let r = MultipartBody { boundary, parts: Vec::new(), entries: Ghost(none) };
        assert(r.segments() =~= seq![]);
        r
    }

    /// The boundary, without the leading dashes.
    pub fn boundary(&self) -> (r: &str)
        ensures
            r@ == self.boundary_view(),
    {
        self.boundary.as_str()
    }

    fn push_segment(&mut self, segment: String)
        ensures
            final(self).boundary_view() == old(self).boundary_view(),
            final(self).entries() == old(self).entries(),
            final(self).segments() == old(self).segments().push(segment@),
    {
        self.parts.push(segment);
        assert(self.segments() =~= old(self).segments().push(segment@));
    }

    /// Appends an entry: its marker, its header line and its value.
    fn add_entry(&mut self, entry: &MultipartEntry)
        requires
            old(self).wf(),
            entry.wf(),
        ensures
            final(self).wf(),
            final(self).boundary_view() == old(self).boundary_view(),
            final(self).entries() == old(self).entries().push(entry.rendered()),
    {
        entry.write_headers(self);
        entry.write_value(self);
        let ghost entries = self.entries@.push(entry.rendered());
        assert(entries.drop_last() =~= self.entries@);
        self.entries = Ghost(entries);
        assert(self.segments() =~= render(self.boundary_view(), self.entries()));
    }

    /// Appends a text field `key` holding `value`.
    pub fn write(&mut self, key: String, value: String)
        requires
            old(self).wf(),
        ensures
            final(self).wf(),
            final(self).boundary_view() == old(self).boundary_view(),
            final(self).entries() == old(self).entries().push((text_disposition(key@), value@)),
    {
        let entry = MultipartEntry::Text(MultipartTextEntry::new(key, value));
        self.add_entry(&entry);
    }

    /// Appends a file field `key` for the file at `path`, which holds
    /// `contents`. The header line names the file by the final component of
    /// `path`, which must be a name.
    pub fn upload(&mut self, key: String, path: String, contents: String)
        requires
            old(self).wf(),
            file_name_of(path@) is Some,
        ensures
            final(self).wf(),
            final(self).boundary_view() == old(self).boundary_view(),
            final(self).entries() == old(self).entries().push(
                (file_disposition(key@, file_name_of(path@)->Some_0), contents@),
            ),
    {
        let entry = MultipartEntry::File(MultipartFileEntry::new(key, path, contents));
        self.add_entry(&entry);
    }

    /// `--<boundary>`.
    pub fn full_boundary(&self) -> (r: String)
        ensures
            r@ == marker_of(self.boundary_view()),
    {
        let mut r = String::from_str("--");
        r.append(self.boundary.as_str());
        r
    }

    /// `multipart/form-data; boundary=<boundary>`.
    pub fn content_type(&self) -> (r: String)
        ensures
            r@ == content_type_of(self.boundary_view()),
    {
        let mut r = String::from_str("multipart/form-data; boundary=");
        r.append(self.boundary.as_str());
        r
    }

    /// A boundary of `BOUNDARY_LENGTH` random letters and digits.
    pub fn generate_boundary() -> (r: String)
        ensures
            is_generated_boundary(r@),
    {
        random_alphanumeric(BOUNDARY_LENGTH)
    }
}

/// Joins `parts` with CRLF between each two.
pub fn join_segments(parts: &Vec<String>) -> (r: String)
    ensures
        r@ == join_crlf(parts@.map_values(|s: String| s@)),
{
    let ghost views = parts@.map_values(|s: String| s@);
    let mut r = String::new();
    let mut i: usize = 0;
    while i < parts.len()
        invariant
            0 <= i <= parts.len(),
            views == parts@.map_values(|s: String| s@),
            r@ == join_crlf(views.subrange(0, i as int)),
        decreases parts.len() - i,
    {
        proof {
            assert(views.subrange(0, i + 1).drop_last() =~= views.subrange(0, i as int));
        }
        if i > 0 {
            r.append("\r\n");
        } else {
            assert(views.subrange(0, 0) =~= seq![]);
            assert(r@ =~= seq![]);
        }
        r.append(parts[i].as_str());
        i = i + 1;
        proof {
            if i == 1 {
                assert(r@ =~= views.subrange(0, 1)[0]);
            }
        }
    }
    assert(views.subrange(0, parts.len() as int) =~= views);
    r
}

impl RequestBody for MultipartBody {
    open spec fn wf(&self) -> bool {
        MultipartBody::wf(self)
    }

    open spec fn payload(&self) -> Seq<char> {
        MultipartBody::payload(self)
    }

    open spec fn required_headers(&self) -> Map<Seq<char>, Seq<Seq<u8>>> {
        map!["content-type"@ => seq![encode_utf8(content_type_of(self.boundary_view()))]]
    }

    /// The finished body: the closing marker is appended, and all segments
    /// are joined with CRLF.
    fn for_request(self) -> (r: String) {
        let mut parts = self.parts;
        let closing = {
            let mut c = String::from_str("--");
            c.append(self.boundary.as_str());
            c.append("--");
            c
        };
        parts.push(closing);
        proof {
            assert(parts@.map_values(|s: String| s@) =~= render(
                self.boundary@,
                self.entries@,
            ).push(closing_of(self.boundary@)));
        }
        join_segments(&parts)
    }

    /// Sets `Content-Type` to `multipart/form-data; boundary=<boundary>`.
    fn set_headers(&self, headers: &mut hyper::header::Headers) {
        let value = self.content_type();
        proof {
            reveal_strlit("content-type");
        }
        set_raw_header(headers, "content-type", value.as_str());
        assert(raw_headers(*headers) =~= raw_headers(*old(headers)).union_prefer_right(
            self.required_headers(),
        ));
    }
}

/// Relies on `rand::thread_rng` sampling `rand::distributions::Alphanumeric`:
/// each draw is one of `A-Z`, `a-z`, `0-9`; `len` of them are taken.
#[verifier::external_body]
fn random_alphanumeric(len: usize) -> (r: String)
    ensures
        r@.len() == len,
        forall|i: int| 0 <= i < r@.len() ==> is_boundary_char(#[trigger] r@[i]),
{
    rand::thread_rng().sample_iter(&rand::distributions::Alphanumeric).take(len).map(
        char::from,
    ).collect()
}

} // verus!
