use vstd::prelude::*;
use vstd::string::StrSliceExecFns;
use hyperx::header::Header;
use crate::catalog::{url_texts, AutoSplitter, List};
use crate::paths::{join_path, joined_path};
use vstd::utf8::{decode_utf8, valid_utf8};

verus! {

/// The name a downloaded file is saved under when neither the response nor
/// the URL gives one.
pub const FALLBACK_FILE_NAME: &'static str = "Unknown.wasm";

/// For each parameter of the Content-Disposition header `header`, as
/// `hyperx` parses it: the bytes of a file name parameter, `None` for any
/// other parameter; `None` when the header does not parse.
pub uninterp spec fn disposition_filenames(header: Seq<u8>) -> Option<Seq<Option<Seq<u8>>>>;

/// The last segment of the path of `url` as the `url` crate parses it;
/// `None` when `url` does not parse or cannot have a path.
pub uninterp spec fn url_last_segment(url: Seq<char>) -> Option<Seq<char>>;

/// `s` with its percent-encoded bytes decoded, invalid UTF-8 replaced.
pub uninterp spec fn percent_decoded(s: Seq<char>) -> Seq<char>;

/// Relies on `hyperx::header::ContentDisposition::parse_header`: the file
/// name parameters of a Content-Disposition header value, in order.
#[verifier::external_body]
fn disposition_parameters(header: &[u8]) -> (r: Option<Vec<Option<Vec<u8>>>>)
    ensures
        r matches Some(v) ==> disposition_filenames(header@) == Some(
            v@.map_values(|p: Option<Vec<u8>>| match p { Some(b) => Some(b@), None => None }),
        ),
        r is None ==> disposition_filenames(header@) is None,
{
    match hyperx::header::ContentDisposition::parse_header(&hyperx::header::Raw::from(header)) {
        Ok(cd) => Some(cd.parameters.into_iter().map(|p| match p {
            hyperx::header::DispositionParam::Filename(_, _, bytes) => Some(bytes),
            hyperx::header::DispositionParam::Ext(_, _) => None,
        }).collect()),
        Err(_) => None,
    }
}

/// Relies on `std::str::from_utf8`: the text of bytes that are valid
/// UTF-8, `None` for any others.
#[verifier::external_body]
fn text_of_utf8(bytes: &[u8]) -> (r: Option<String>)
    ensures
        r is Some <==> valid_utf8(bytes@),
        r matches Some(s) ==> s@ == decode_utf8(bytes@),
{
    std::str::from_utf8(bytes).ok().map(|s| s.to_owned())
}

/// Relies on `url::Url::parse` and `Url::path_segments` (through reqwest's
/// re-export): the last segment of a URL's path.  Segments are split at
/// `/` and hold none.
#[verifier::external_body]
fn last_path_segment(url: &str) -> (r: Option<String>)
    ensures
        r matches Some(s) ==> url_last_segment(url@) == Some(s@) && !s@.contains('/'),
        r is None ==> url_last_segment(url@) is None,
{
    let parsed = reqwest::Url::parse(url).ok()?;
    let last = parsed.path_segments()?.last()?;
    Some(last.to_owned())
}

/// Relies on `percent_encoding::percent_decode_str` and
/// `PercentDecode::decode_utf8_lossy`.  Text without `%` is left as it is.
#[verifier::external_body]
fn percent_decode(s: &str) -> (r: String)
    ensures
        r@ == percent_decoded(s@),
        !s@.contains('%') ==> r@ == s@,
{
    percent_encoding::percent_decode_str(s).decode_utf8_lossy().into_owned()
}

/// The text of the first file name parameter that is valid UTF-8.
pub open spec fn first_text_name(params: Seq<Option<Seq<u8>>>) -> Option<Seq<char>>
    decreases params.len(),
{
    if params.len() == 0 {
        None
    } else if params[0] is Some && valid_utf8(params[0]->0) {
        Some(decode_utf8(params[0]->0))
    } else {
        first_text_name(params.drop_first())
    }
}

/// The file name that a Content-Disposition header value declares.
pub open spec fn header_file_name(header: Seq<u8>) -> Option<Seq<char>> {
    match disposition_filenames(header) {
        Some(params) => first_text_name(params),
        None => None,
    }
}

/// The file name that the path of `url` ends in, percent-decoded.
pub open spec fn url_file_name(url: Seq<char>) -> Option<Seq<char>> {
    match url_last_segment(url) {
        Some(seg) => Some(percent_decoded(seg)),
        None => None,
    }
}

/// A name that is present and not empty.
pub open spec fn usable(name: Option<Seq<char>>) -> bool {
    name is Some && name->0.len() > 0
}

/// The name a file is saved under: the one the server declares, else the
/// one its URL ends in, else the fallback name.
pub open spec fn chosen_file_name(declared: Option<Seq<char>>, from_url: Option<Seq<char>>) -> Seq<char> {
    if usable(declared) {
        declared->0
    } else if usable(from_url) {
        from_url->0
    } else {
        FALLBACK_FILE_NAME@
    }
}

/// The text of an optional string.
pub open spec fn text_of(s: Option<String>) -> Option<Seq<char>> {
    match s {
        Some(t) => Some(t@),
        None => None,
    }
}

/// The file name that a Content-Disposition header value declares: the
/// first file name parameter whose bytes are UTF-8.
pub fn requested_file_name(header: &[u8]) -> (r: Option<String>)
    ensures
        text_of(r) == header_file_name(header@),
{
    let params = match disposition_parameters(header) {
        Some(p) => p,
        None => return None,
    };
    let ghost ps = params@.map_values(|p: Option<Vec<u8>>| match p { Some(b) => Some(b@), None => None });
    let mut i: usize = 0;
    assert(ps.subrange(0, ps.len() as int) =~= ps);
    while i < params.len()
        invariant
            i <= params@.len(),
            ps.len() == params@.len(),
            ps == params@.map_values(|p: Option<Vec<u8>>| match p { Some(b) => Some(b@), None => None }),
            disposition_filenames(header@) == Some(ps),
            first_text_name(ps) == first_text_name(ps.subrange(i as int, ps.len() as int)),
        decreases params@.len() - i,
    {
        let ghost rest = ps.subrange(i as int, ps.len() as int);
        assert(rest.drop_first() =~= ps.subrange(i + 1, ps.len() as int));
        assert(rest[0] == ps[i as int]);
        match &params[i] {
            Some(bytes) => {
                match text_of_utf8(bytes.as_slice()) {
                    Some(name) => return Some(name),
                    None => {},
                }
            },
            None => {},
        }
        i = i + 1;
    }
    assert(ps.subrange(i as int, ps.len() as int).len() == 0);
    None
}

/// The file name that the path of `url` ends in, percent-decoded.
pub fn file_name_from_url(url: &str) -> (r: Option<String>)
    ensures
        text_of(r) == url_file_name(url@),
{
    match last_path_segment(url) {
        Some(seg) => Some(percent_decode(seg.as_str())),
        None => None,
    }
}

/// Picks the name a downloaded file is saved under from the name the server
/// declared and the name its URL ends in.
pub fn choose_file_name(declared: Option<String>, from_url: Option<String>) -> (r: String)
    ensures
        r@ == chosen_file_name(text_of(declared), text_of(from_url)),
{
    if let Some(name) = declared {
        if !name.as_str().is_empty() {
            return name;
        }
    }
    if let Some(name) = from_url {
        if !name.as_str().is_empty() {
            return name;
        }
    }
    FALLBACK_FILE_NAME.to_owned()
}

/// The name a file downloaded from `url` is saved under, given the value of
/// the response's Content-Disposition header, if it had one.
pub fn file_name_for(content_disposition: Option<&[u8]>, url: &str) -> (r: String)
    ensures
        r@ == chosen_file_name(
            match content_disposition {
                Some(h) => header_file_name(h@),
                None => None,
            },
            url_file_name(url@),
        ),
{
    let declared = match content_disposition {
        Some(h) => requested_file_name(h),
        None => None,
    };
    choose_file_name(declared, file_name_from_url(url))
}

/// A module for the auto splitting runtime is a file whose name ends in
/// `.wasm` after a non-empty stem.  For a plain file name this is
/// `std::path::Path::extension` being `wasm`; a name that ends in `/` or
/// `/.` names no file, and is no module here.
pub open spec fn is_module_file_name(name: Seq<char>) -> bool {
    let n = name.len();
    &&& n > 5
    &&& name[n - 5] == '.'
    &&& name[n - 4] == 'w'
    &&& name[n - 3] == 'a'
    &&& name[n - 2] == 's'
    &&& name[n - 1] == 'm'
}

/// Whether a file of this name is a module for the auto splitting runtime.
pub fn is_module_file(name: &str) -> (r: bool)
    ensures
        r == is_module_file_name(name@),
{
    let n = name.unicode_len();
    n > 5 && name.get_char(n - 5) == '.' && name.get_char(n - 4) == 'w' && name.get_char(n - 3) == 'a'
        && name.get_char(n - 2) == 's' && name.get_char(n - 1) == 'm'
}

/// A file that was downloaded and written.
pub struct DownloadedFile {
    pub name: String,
    pub path: String,
}

/// Index `i` holds the first module among `files`.
pub open spec fn is_first_module(files: Seq<DownloadedFile>, i: int) -> bool {
    &&& 0 <= i < files.len()
    &&& is_module_file_name(files[i].name@)
    &&& forall|k: int| 0 <= k < i ==> !is_module_file_name(#[trigger] files[k].name@)
}

impl DownloadedFile {
    /// The file `name` inside the directory `dest_dir`.
    pub fn in_dir(dest_dir: &str, name: String) -> (r: DownloadedFile)
        ensures
            r.name == name,
            r.path@ == joined_path(dest_dir@, name@),
    {
        let path = join_path(dest_dir, name.as_str());
        DownloadedFile { name, path }
    }
}

/// One acquisition of a splitter's files.  Each URL is tried once, in
/// order; a URL that fails is skipped and the others are still tried.  Once
/// all were tried, the module is the first saved file with a module name.
pub struct SplitterDownload {
    urls: Vec<String>,
    next: usize,
    saved: Vec<DownloadedFile>,
}

impl SplitterDownload {
    /// The URLs to try, in order.
    pub closed spec fn urls(&self) -> Seq<Seq<char>> {
        self.urls@.map_values(|u: String| u@)
    }

    /// How many URLs were tried so far.
    pub closed spec fn attempted(&self) -> nat {
        self.next as nat
    }

    /// The files saved so far, in the order of their URLs.
    pub closed spec fn saved(&self) -> Seq<DownloadedFile> {
        self.saved@
    }

    /// The internal invariant.
    pub closed spec fn wf(&self) -> bool {
        self.next <= self.urls@.len()
    }

    /// Whether every URL was tried.
    pub open spec fn is_done(&self) -> bool {
        self.attempted() == self.urls().len()
    }

    /// An acquisition of the files of `entry`, none tried yet.
    pub fn new(entry: &AutoSplitter) -> (r: SplitterDownload)
        ensures
            r.wf(),
            r.urls() == url_texts(*entry),
            r.attempted() == 0,
            r.saved() == Seq::<DownloadedFile>::empty(),
    {
        let src = &entry.urls.urls;
        let mut urls: Vec<String> = Vec::new();
        let mut i: usize = 0;
        while i < src.len()
            invariant
                i <= src@.len(),
                urls@ == src@.take(i as int),
            decreases src@.len() - i,
        {
            let u = src[i].clone();
            urls.push(u);
            assert(urls@ =~= src@.take(i + 1));
            i = i + 1;
        }
        assert(src@.take(i as int) =~= src@);
        SplitterDownload { urls, next: 0, saved: Vec::new() }
    }

    /// An acquisition of the files of the catalog's first entry for
    /// `game_name`; `None` when no entry is for that game.
    pub fn for_game(list: &List, game_name: &str) -> (r: Option<SplitterDownload>)
        ensures
            r is None <==> crate::catalog::none_for_game(list.entries(), game_name@),
            r matches Some(d) ==> d.wf() && d.attempted() == 0 && d.saved().len() == 0
                && exists|i: int| crate::catalog::is_first_for_game(list.entries(), game_name@, i)
                    && d.urls() == url_texts(list.entries()[i]),
    {
        match list.get_for_game(game_name) {
            Some(entry) => Some(SplitterDownload::new(entry)),
            None => None,
        }
    }

    /// The URL to try next; `None` once every URL was tried.
    pub fn next_url(&self) -> (r: Option<&str>)
        requires
            self.wf(),
        ensures
            r is None <==> self.is_done(),
            r matches Some(u) ==> self.attempted() < self.urls().len() && u@ == self.urls()[self.attempted() as int],
    {
        if self.next < self.urls.len() {
            Some(self.urls[self.next].as_str())
        } else {
            None
        }
    }

    /// Records that the URL tried now was downloaded and written as `file`.
    pub fn on_saved(&mut self, file: DownloadedFile)
        requires
            old(self).wf(),
            !old(self).is_done(),
        ensures
            final(self).wf(),
            final(self).urls() == old(self).urls(),
            final(self).attempted() == old(self).attempted() + 1,
            final(self).saved() == old(self).saved().push(file),
    {
        self.saved.push(file);
        if self.next < self.urls.len() {
            self.next = self.next + 1;
        }
    }

    /// Records that the URL tried now failed; it is skipped.
    pub fn on_failed(&mut self)
        requires
            old(self).wf(),
            !old(self).is_done(),
        ensures
            final(self).wf(),
            final(self).urls() == old(self).urls(),
            final(self).attempted() == old(self).attempted() + 1,
            final(self).saved() == old(self).saved(),
    {
        if self.next < self.urls.len() {
            self.next = self.next + 1;
        }
    }

    /// The path of the first saved file that is a module; `None` when no
    /// saved file is one, however many other files were saved.
    pub fn found_module(&self) -> (r: Option<&str>)
        ensures
            r is None <==> forall|i: int| 0 <= i < self.saved().len()
                ==> !is_module_file_name(#[trigger] self.saved()[i].name@),
            r matches Some(p) ==> exists|i: int| is_first_module(self.saved(), i) && p@ == self.saved()[i].path@,
    {
        let mut i: usize = 0;
        while i < self.saved.len()
            invariant
                i <= self.saved@.len(),
                forall|k: int| 0 <= k < i ==> !is_module_file_name(#[trigger] self.saved@[k].name@),
            decreases self.saved@.len() - i,
        {
            if is_module_file(self.saved[i].name.as_str()) {
                assert(is_first_module(self.saved(), i as int));
                return Some(self.saved[i].path.as_str());
            }
            i = i + 1;
        }
        None
    }
}

} // verus!
