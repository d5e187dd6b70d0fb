//! De-obfuscation of ev1 media streams and resolution of the output file.
//!
//! A fetched ev1 stream carries its first bytes bitwise-complemented; the
//! remainder is plain. [`HeaderCipher`] reverses that, chunk by chunk, however
//! the stream is split. The output file name is the caller's choice, or the
//! last segment of the decoded URL's path, or a fixed default, always with a
//! `.flv` suffix.

use vstd::prelude::*;
use vstd::string::StrSliceExecFns;
use vstd::string::StringExecFns;

verus! {

/// Why a download was abandoned.
#[derive(Debug)]
pub enum Ev1DownloadError {
    /// The decoded text is not a syntactically valid absolute URL.
    InvalidDecodedUrl(url::ParseError),
    /// The output file could not be created — it may already exist — or a
    /// write to it failed; carries the underlying message.
    FileOutputFailed(String),
    /// Fetching the stream failed; carries the underlying message.
    HttpRequestFailed(String),
}

#[verifier::external_type_specification]
#[verifier::external_body]
pub struct ExParseError(url::ParseError);

/// The path component that URL parsing recovers from the given text: `Some`
/// of the path where the text is a valid absolute URL, `None` where the text
/// is rejected.
pub uninterp spec fn url_path(s: Seq<char>) -> Option<Seq<char>>;

/// Relies on `url::Url::parse` and `url::Url::path`: whether the text parses,
/// and which path component the parsed URL carries, depend on the text alone.
#[verifier::external_body]
fn parse_url_path(s: &str) -> (r: Result<String, url::ParseError>)
    ensures
        match r {
            Ok(p) => url_path(s@) == Some(p@),
            Err(_) => url_path(s@) is None,
        },
{
    match url::Url::parse(s) {
        Ok(u) => Ok(u.path().to_string()),
        Err(e) => Err(e),
    }
}

/// The path with its trailing slashes removed.
pub open spec fn trim_trailing_slashes(p: Seq<char>) -> Seq<char>
    decreases p.len(),
{
    if p.len() > 0 && p.last() == '/' {
        trim_trailing_slashes(p.drop_last())
    } else {
        p
    }
}

/// The characters after the last slash; the whole text where there is none.
pub open spec fn suffix_after_slash(p: Seq<char>) -> Seq<char>
    decreases p.len(),
{
    if p.len() == 0 {
        p
    } else if p.last() == '/' {
        Seq::empty()
    } else {
        suffix_after_slash(p.drop_last()).push(p.last())
    }
}

/// The file base name a URL path yields: its last segment, ignoring trailing
/// slashes, or the fixed default where the path has no usable segment.
pub open spec fn base_name(p: Seq<char>) -> Seq<char> {
    let s = suffix_after_slash(trim_trailing_slashes(p));
    if s.len() == 0 {
        "video"@
    } else {
        s
    }
}

/// The name the output file gets: the caller's choice where one was given,
/// the path's base name otherwise, always with the `.flv` suffix.
pub open spec fn output_file_name(name_arg: Option<Seq<char>>, path: Seq<char>) -> Seq<char> {
    (match name_arg {
        Some(n) => n,
        None => base_name(path),
    }) + ".flv"@
}

/// The view of an optional name argument.
pub open spec fn opt_view(o: Option<&str>) -> Option<Seq<char>> {
    match o {
        Some(n) => Some(n@),
        None => None,
    }
}

/// The base name a URL path yields, as [`base_name`] states it.
fn file_base_name(path: &str) -> (r: String)
    ensures
        r@ == base_name(path@),
{
    let n = path.unicode_len();
    let mut end = n;
    proof {
        assert(path@.take(n as int) =~= path@);
    }
    while end > 0 && path.get_char(end - 1) == '/'
        invariant
            end <= n,
            n == path@.len(),
            trim_trailing_slashes(path@) == trim_trailing_slashes(path@.take(end as int)),
        decreases end,
    {
        proof {
            assert(path@.take(end as int).drop_last() =~= path@.take(end as int - 1));
        }
        end -= 1;
    }
    proof {
        assert(trim_trailing_slashes(path@) == path@.take(end as int));
    }
    let mut start = end;
    proof {
        assert(suffix_after_slash(path@.take(end as int)) =~= suffix_after_slash(
            path@.take(end as int),
        ) + path@.subrange(end as int, end as int));
    }
    while start > 0 && path.get_char(start - 1) != '/'
        invariant
            start <= end <= n,
            n == path@.len(),
            suffix_after_slash(path@.take(end as int)) =~= suffix_after_slash(
                path@.take(start as int),
            ) + path@.subrange(start as int, end as int),
        decreases start,
    {
        proof {
            assert(path@.take(start as int).drop_last() =~= path@.take(start as int - 1));
            assert(suffix_after_slash(path@.take(start as int)) == suffix_after_slash(
                path@.take(start as int - 1),
            ).push(path@[start as int - 1]));
            assert(suffix_after_slash(path@.take(start as int - 1)) + path@.subrange(
                start as int - 1,
                end as int,
            ) =~= suffix_after_slash(path@.take(start as int)) + path@.subrange(
                start as int,
                end as int,
            ));
        }
        start -= 1;
    }
    proof {
        assert(suffix_after_slash(path@.take(start as int)) =~= Seq::<char>::empty());
        assert(suffix_after_slash(trim_trailing_slashes(path@)) =~= path@.subrange(
            start as int,
            end as int,
        ));
    }
    if start == end {
        String::from_str("video")
    } else {
        let seg = path.substring_char(start, end);
        String::from_str(seg)
    }
}

/// Resolve where a download writes: validate the decoded URL and return the
/// `<name>.flv` output path, built from the given name or the URL's path.
pub fn resolve_output_path(decoded_url: &str, output_filename: Option<&str>) -> (r: Result<
    String,
    Ev1DownloadError,
>)
    ensures
        match r {
            Ok(name) => url_path(decoded_url@) is Some && name@ == output_file_name(
                opt_view(output_filename),
                url_path(decoded_url@).unwrap(),
            ),
            Err(e) => (e matches Ev1DownloadError::InvalidDecodedUrl(_)) && url_path(
                decoded_url@,
            ) is None,
        },
{
    let path = match parse_url_path(decoded_url) {
        Ok(p) => p,
        Err(e) => {
            return Err(Ev1DownloadError::InvalidDecodedUrl(e));
        },
    };
    let base = match output_filename {
        Some(name) => String::from_str(name),
        None => file_base_name(path.as_str()),
    };
    Ok(base.concat(".flv"))
}

/// Bitwise complement of a byte, the de-obfuscation applied to the leading
/// bytes of a fetched stream.
pub open spec fn complement_byte(b: u8) -> u8 {
    b ^ 0xFF
}

/// How many of a stream's first bytes are obfuscated.
pub open spec fn header_len(n: int) -> int {
    if n < 100 {
        n
    } else {
        100
    }
}

/// The de-obfuscated form of a whole stream: the first bytes up to position
/// 100 bitwise-complemented, the rest unchanged.
pub open spec fn transform_stream(s: Seq<u8>) -> Seq<u8> {
    Seq::new(
        s.len(),
        |i: int|
            if i < 100 {
                complement_byte(s[i])
            } else {
                s[i]
            },
    )
}

/// Reverses the leading-byte obfuscation of one stream, fed chunk by chunk in
/// whatever sizes the reads return. Tracks how far into the stream it is, so
/// the complement stops at exactly 100 bytes however the chunks fall.
pub struct HeaderCipher {
    /// All stream bytes fed so far; ghost, for the contract alone.
    pub consumed: Ghost<Seq<u8>>,
    /// How far into the obfuscated header the stream is, saturating at 100.
    pub pos: usize,
}

impl HeaderCipher {
    /// All stream bytes fed so far.
    pub open spec fn stream(self) -> Seq<u8> {
        self.consumed@
    }

    /// The position counter saturates at the header's end.
    pub open spec fn wf(self) -> bool {
        self.pos == header_len(self.consumed@.len() as int)
    }

    /// A cipher at the start of a fresh stream.
    pub fn new() -> (r: Self)
        ensures
            r.wf(),
            r.stream() == Seq::<u8>::empty(),
    {
        HeaderCipher { consumed: Ghost(Seq::empty()), pos: 0 }
    }

    /// Feed the next chunk read from the stream; returns exactly the bytes to
    /// write for it: the de-obfuscated stream's next segment, one output byte
    /// per input byte.
    pub fn apply(&mut self, chunk: &Vec<u8>) -> (out: Vec<u8>)
        requires
            old(self).wf(),
        ensures
            final (self).wf(),
            final (self).stream() == old(self).stream() + chunk@,
            out@ == transform_stream(final (self).stream()).subrange(
                old(self).stream().len() as int,
                final (self).stream().len() as int,
            ),
            out@.len() == chunk@.len(),
    {
        let ghost base = self.consumed@.len() as int;
        let mut out: Vec<u8> = Vec::new();
        let mut i: usize = 0;
        while i < chunk.len()
            invariant
                i <= chunk@.len(),
                self.consumed == old(self).consumed,
                old(self).wf(),
                self.pos == header_len(old(self).stream().len() + i),
                out@.len() == i,
                forall|j: int|
                    0 <= j < i ==> out@[j] == (if old(self).stream().len() + j < 100 {
                        complement_byte(chunk@[j])
                    } else {
                        chunk@[j]
                    }),
            decreases chunk@.len() - i,
        {
            let b = chunk[i];
            if self.pos < 100 {
                out.push(b ^ 0xFF);
                self.pos += 1;
            } else {
                out.push(b);
            }
            i += 1;
        }
        self.consumed = Ghost(self.consumed@ + chunk@);
        proof {
            assert(out@ =~= transform_stream(self.consumed@).subrange(
                base,
                self.consumed@.len() as int,
            ));
        }
        out
    }
}

/// Prefix stability of the stream transform: de-obfuscating a prefix of the
/// stream gives that prefix of the de-obfuscated whole, since each byte's
/// treatment depends on its position alone. This is what lets the transform
/// run chunk by chunk, as the bytes arrive, in one pass.
pub proof fn lemma_transform_stream_prefix(s1: Seq<u8>, s2: Seq<u8>)
    ensures
        transform_stream(s1 + s2).subrange(0, s1.len() as int) =~= transform_stream(s1),
{
}

/// The boundary law of the stream transform: output length equals stream
/// length, the bytes before position 100 are bitwise-complemented, and every
/// byte from position 100 on passes through unchanged.
pub proof fn lemma_transform_stream_boundary(s: Seq<u8>)
    ensures
        transform_stream(s).len() == s.len(),
        forall|i: int|
            0 <= i < s.len() && i < 100 ==> transform_stream(s)[i] == complement_byte(s[i]),
        forall|i: int| 100 <= i < s.len() ==> transform_stream(s)[i] == s[i],
{
}

} // verus!
