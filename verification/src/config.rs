use vstd::prelude::*;
use vstd::string::*;

use crate::error::DownloadError;
use crate::headers::{
    header_entries, header_map_get, header_map_insert, header_map_keys_len, header_map_new,
    lower_chars, valid_header_name, valid_header_value, visible_value,
};
use crate::session::{DownloadSession, SessionModel, Step};
use crate::urlpath::{join_path, last_segment, last_segment_of};

verus! {

/// What a configuration holds, as mathematical values: the header entries,
/// the destination directory, the optional explicit file name, and the
/// verbosity flag.
pub struct ConfigModel {
    pub headers: Map<Seq<char>, Seq<char>>,
    pub output_dir: Seq<char>,
    pub file_name: Option<Seq<char>>,
    pub verbose: bool,
}

impl ConfigModel {
    /// The output file name one download from this configuration uses: the
    /// explicit name when one is set, otherwise the piece of the URL after
    /// its last `/`; nothing when neither yields a name.
    pub open spec fn resolved_name(self, url: Seq<char>) -> Option<Seq<char>> {
        match self.file_name {
            Option::Some(n) => Option::Some(n),
            Option::None => if last_segment_of(url).len() == 0 {
                Option::None
            } else {
                Option::Some(last_segment_of(url))
            },
        }
    }

    /// The full path one download from this configuration writes to:
    /// `output_dir`, `/`, then the resolved file name.
    pub open spec fn planned_path(self, url: Seq<char>) -> Option<Seq<char>> {
        match self.resolved_name(url) {
            Option::Some(n) => Option::Some(self.output_dir + seq!['/'] + n),
            Option::None => Option::None,
        }
    }
}

/// A builder-style download configuration: request headers, a destination
/// directory, an optional explicit output file name, and a verbosity flag.
/// Each setter consumes the value and hands back the changed one, so calls
/// chain; a download borrows it, so one configuration serves any number of
/// downloads.
///
/// The destination directory starts as `.`, the process's working directory.
pub struct Downloader {
    header: reqwest::header::HeaderMap,
    output_dir: String,
    file_name: Option<String>,
    verbose: bool,
}

impl View for Downloader {
    type V = ConfigModel;

    closed spec fn view(&self) -> ConfigModel {
        ConfigModel {
            headers: header_entries(self.header),
            output_dir: self.output_dir@,
            file_name: match self.file_name {
                Option::Some(n) => Option::Some(n@),
                Option::None => Option::None,
            },
            verbose: self.verbose,
        }
    }
}

impl Downloader {
    /// A fresh configuration: no headers, output to the working directory,
    /// no explicit file name, not verbose.
    pub fn new() -> (r: Downloader)
        ensures
            (r@.headers == Map::<Seq<char>, Seq<char>>::empty()),
            r@.output_dir == seq!['.'],
            r@.file_name is None,
            r@.verbose == false,
    {
        proof {
            reveal_strlit(".");
            assert("."@ =~= seq!['.']);
        }
        Downloader {
            header: header_map_new(),
            output_dir: ".".to_owned(),
            file_name: Option::None,
            verbose: false,
        }
    }

    /// Sets the explicit output file name, which wins over the name derived
    /// from the URL.
    pub fn file_name(self, file_name: &str) -> (r: Downloader)
        ensures
            r@ == (ConfigModel { file_name: Option::Some(file_name@), ..self@ }),
    {
        Downloader { file_name: Option::Some(file_name.to_owned()), ..self }
    }

    /// Turns progress reporting on.
    pub fn verbose(self) -> (r: Downloader)
        ensures
            r@ == (ConfigModel { verbose: true, ..self@ }),
    {
        Downloader { verbose: true, ..self }
    }

    /// Sets the destination directory; it need not exist yet, a download
    /// creates it.
    pub fn set_output_dir(self, output_dir: &str) -> (r: Downloader)
        ensures
            r@ == (ConfigModel { output_dir: output_dir@, ..self@ }),
    {
        Downloader { output_dir: output_dir.to_owned(), ..self }
    }

    /// Replaces the whole header collection.
    pub fn replace_header(self, header: reqwest::header::HeaderMap) -> (r: Downloader)
        ensures
            r@ == (ConfigModel { headers: header_entries(header), ..self@ }),
    {
        Downloader { header, ..self }
    }

    /// Stores one header entry, replacing any entry of the same name. The
    /// name and value must be ones HTTP accepts, and the collection must be
    /// nowhere near the header map's capacity; the name is stored
    /// lower-cased.
    pub fn insert_header(self, k: &str, v: &str) -> (r: Downloader)
        requires
            valid_header_name(k@),
            valid_header_value(v@),
            self@.headers.dom().len() < 6554,
        ensures
            r@ == (ConfigModel { headers: self@.headers.insert(lower_chars(k@), v@), ..self@ }),
    {
        let mut header = self.header;
        let _inserted = header_map_insert(&mut header, k, v);
        Downloader { header, ..self }
    }

    /// The number of distinct header names this configuration sends.
    pub fn header_count(&self) -> (n: usize)
        ensures
            n == self@.headers.dom().len(),
    {
        header_map_keys_len(&self.header)
    }

    /// The value this configuration sends under a header name, when one is
    /// stored there and is printable.
    pub fn header_value(&self, k: &str) -> (r: Option<String>)
        ensures
            r is Some <==> (valid_header_name(k@) && self@.headers.contains_key(lower_chars(k@))
                && visible_value(self@.headers[lower_chars(k@)])),
            r is Some ==> r->0@ == self@.headers[lower_chars(k@)],
    {
        header_map_get(&self.header, k)
    }

    /// The header collection itself, for issuing the request.
    pub fn header_map(&self) -> (r: &reqwest::header::HeaderMap)
        ensures
            header_entries(*r) == self@.headers,
    {
        &self.header
    }

    /// Whether progress reporting is on.
    pub fn is_verbose(&self) -> (r: bool)
        ensures
            r == self@.verbose,
    {
        self.verbose
    }

    /// The destination directory as configured.
    pub fn output_dir(&self) -> (r: &String)
        ensures
            r@ == self@.output_dir,
    {
        &self.output_dir
    }

    /// The output file name a download of `url` uses: the explicit name when
    /// one is set, otherwise the piece of the URL after its last `/`.
    /// `NamingError` exactly when no explicit name is set and the URL has
    /// nothing after its last `/`.
    pub fn resolved_file_name(&self, url: &str) -> (r: Result<String, DownloadError>)
        ensures
            r is Ok <==> self@.resolved_name(url@) is Some,
            r is Ok ==> Option::Some(r->Ok_0@) == self@.resolved_name(url@),
            r is Err ==> r->Err_0 == DownloadError::NamingError,
    {
        match &self.file_name {
            Option::Some(n) => Ok(n.clone()),
            Option::None => {
                let seg = last_segment(url);
                if seg.as_str().unicode_len() == 0 {
                    Err(DownloadError::NamingError)
                } else {
                    Ok(seg)
                }
            },
        }
    }

    /// Starts one download of `url`: resolves the output file name and hands
    /// back a session that stands before its first step, the directory
    /// check. The configuration itself is only borrowed and left as it was.
    /// `NamingError` exactly when no output file name can be resolved.
    pub fn begin(&self, url: &str) -> (r: Result<DownloadSession, DownloadError>)
        ensures
            r is Ok <==> self@.planned_path(url@) is Some,
            r is Ok ==> (r->Ok_0)@.step == Step::EnsureDir && Option::Some((r->Ok_0)@.path)
                == self@.planned_path(url@) && (r->Ok_0)@.dir == self@.output_dir && (r->Ok_0)@.verbose
                == self@.verbose && (r->Ok_0)@.written == Seq::<u8>::empty() && (r->Ok_0)@.dir_ok
                == false && (r->Ok_0).wf(),
            r is Err ==> r->Err_0 == DownloadError::NamingError,
    {
        let name = match self.resolved_file_name(url) {
            Ok(n) => n,
            Err(e) => {
                return Err(e);
            },
        };
        let path = join_path(self.output_dir.as_str(), name.as_str());
        Ok(DownloadSession::start(path, self.output_dir.clone(), self.verbose))
    }
}

/// With no explicit file name configured, the resolved file name of any URL
/// whose final `/`-delimited segment is non-empty is exactly that segment.
pub proof fn lemma_default_name_is_last_segment(c: ConfigModel, url: Seq<char>)
    requires
        c.file_name is None,
        last_segment_of(url).len() > 0,
    ensures
        c.resolved_name(url) == Option::Some(last_segment_of(url)),
{
}

/// Reusing a configuration re-targets deterministically: any two sessions
/// begun from the same configuration and URL write to the same path in the
/// same directory — the planned path is a function of the configuration and
/// the URL alone.
pub proof fn lemma_same_config_same_target(
    c: ConfigModel,
    url: Seq<char>,
    s1: SessionModel,
    s2: SessionModel,
)
    requires
        Option::Some(s1.path) == c.planned_path(url),
        Option::Some(s2.path) == c.planned_path(url),
        s1.dir == c.output_dir,
        s2.dir == c.output_dir,
    ensures
        s1.path == s2.path,
        s1.dir == s2.dir,
{
}

} // verus!
