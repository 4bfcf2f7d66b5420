//! Content encodings, their fixed order and the set of encodings a client accepts.

use vstd::prelude::*;
use vstd::string::*;
use vstd::std_specs::convert::FromSpecImpl;
use crate::text::str_eq;

verus! {

/// The content encodings, in their fixed order: an earlier variant is
/// preferred to a later one.
#[derive(Debug, Clone, Copy, PartialEq, Eq, Structural, PartialOrd, Ord, Hash)]
pub enum HttpEncoding {
    Gzip,
    Deflate,
    Brotli,
    Compress,
    Exi,
    Identity,
    Zstd,
    Unsupported,
}

impl HttpEncoding {
    /// The place of the encoding in the fixed order.
    pub open spec fn rank(self) -> nat {
        match self {
            HttpEncoding::Gzip => 0,
            HttpEncoding::Deflate => 1,
            HttpEncoding::Brotli => 2,
            HttpEncoding::Compress => 3,
            HttpEncoding::Exi => 4,
            HttpEncoding::Identity => 5,
            HttpEncoding::Zstd => 6,
            HttpEncoding::Unsupported => 7,
        }
    }

    /// The token that stands for the encoding on the wire. The unsupported
    /// encoding has none: its token is empty.
    pub open spec fn token(self) -> Seq<char> {
        match self {
            HttpEncoding::Gzip => "gzip"@,
            HttpEncoding::Deflate => "deflate"@,
            HttpEncoding::Brotli => "br"@,
            HttpEncoding::Compress => "compress"@,
            HttpEncoding::Exi => "exi"@,
            HttpEncoding::Identity => "identity"@,
            HttpEncoding::Zstd => "zstd"@,
            HttpEncoding::Unsupported => ""@,
        }
    }

    /// The encoding that a token names. Tokens are matched exactly, in lower
    /// case; every other text is the unsupported encoding.
    pub open spec fn from_token(token: Seq<char>) -> HttpEncoding {
        if token == "br"@ {
            HttpEncoding::Brotli
        } else if token == "gzip"@ {
            HttpEncoding::Gzip
        } else if token == "deflate"@ {
            HttpEncoding::Deflate
        } else if token == "compress"@ {
            HttpEncoding::Compress
        } else if token == "exi"@ {
            HttpEncoding::Exi
        } else if token == "zstd"@ {
            HttpEncoding::Zstd
        } else if token == "identity"@ {
            HttpEncoding::Identity
        } else {
            HttpEncoding::Unsupported
        }
    }

    /// The encoding's token.
    pub fn as_str(&self) -> (s: &'static str)
        ensures
            s@ == self.token(),
    {
        match self {
            HttpEncoding::Gzip => "gzip",
            HttpEncoding::Deflate => "deflate",
            HttpEncoding::Brotli => "br",
            HttpEncoding::Compress => "compress",
            HttpEncoding::Exi => "exi",
            HttpEncoding::Identity => "identity",
            HttpEncoding::Zstd => "zstd",
            HttpEncoding::Unsupported => "",
        }
    }

    /// The encoding's token, as an owned string.
    pub fn to_string(&self) -> (s: String)
        ensures
            s@ == self.token(),
    {
        self.as_str().to_owned()
    }

    /// Every encoding is read back from its own token.
    pub proof fn lemma_round_trip(self)
        ensures
            HttpEncoding::from_token(self.token()) == self,
    {
        reveal_strlit("gzip");
        reveal_strlit("deflate");
        reveal_strlit("br");
        reveal_strlit("compress");
        reveal_strlit("exi");
        reveal_strlit("identity");
        reveal_strlit("zstd");
        reveal_strlit("");
        assert("br"@.len() == 2);
        assert("exi"@.len() == 3);
        assert("gzip"@.len() == 4 && "zstd"@.len() == 4);
        assert("gzip"@[0] == 'g' && "zstd"@[0] == 'z');
        assert("deflate"@.len() == 7);
        assert("compress"@.len() == 8 && "identity"@.len() == 8);
        assert("compress"@[0] == 'c' && "identity"@[0] == 'i');
        assert(""@.len() == 0);
    }
}

impl<'a> From<&'a str> for HttpEncoding {
    /// Reads an encoding from its token.
    fn from(value: &'a str) -> (encoding: HttpEncoding) {
        if str_eq(value, "br") {
            HttpEncoding::Brotli
        } else if str_eq(value, "gzip") {
            HttpEncoding::Gzip
        } else if str_eq(value, "deflate") {
            HttpEncoding::Deflate
        } else if str_eq(value, "compress") {
            HttpEncoding::Compress
        } else if str_eq(value, "exi") {
            HttpEncoding::Exi
        } else if str_eq(value, "zstd") {
            HttpEncoding::Zstd
        } else if str_eq(value, "identity") {
            HttpEncoding::Identity
        } else {
            HttpEncoding::Unsupported
        }
    }
}

impl<'a> FromSpecImpl<&'a str> for HttpEncoding {
    open spec fn obeys_from_spec() -> bool {
        true
    }

    open spec fn from_spec(value: &'a str) -> HttpEncoding {
        HttpEncoding::from_token(value@)
    }
}

impl From<String> for HttpEncoding {
    /// Reads an encoding from its token.
    fn from(value: String) -> (encoding: HttpEncoding) {
        HttpEncoding::from(value.as_str())
    }
}

impl FromSpecImpl<String> for HttpEncoding {
    open spec fn obeys_from_spec() -> bool {
        true
    }

    open spec fn from_spec(value: String) -> HttpEncoding {
        HttpEncoding::from_token(value@)
    }
}

impl<'a> From<&'a String> for HttpEncoding {
    /// Reads an encoding from its token.
    fn from(value: &'a String) -> (encoding: HttpEncoding) {
        HttpEncoding::from(value.as_str())
    }
}

impl<'a> FromSpecImpl<&'a String> for HttpEncoding {
    open spec fn obeys_from_spec() -> bool {
        true
    }

    open spec fn from_spec(value: &'a String) -> HttpEncoding {
        HttpEncoding::from_token(value@)
    }
}

/// The encoding of lowest rank in `set`, if `set` holds any.
pub open spec fn lowest_encoding(set: Set<HttpEncoding>) -> Option<HttpEncoding> {
    if set.contains(HttpEncoding::Gzip) {
        Some(HttpEncoding::Gzip)
    } else if set.contains(HttpEncoding::Deflate) {
        Some(HttpEncoding::Deflate)
    } else if set.contains(HttpEncoding::Brotli) {
        Some(HttpEncoding::Brotli)
    } else if set.contains(HttpEncoding::Compress) {
        Some(HttpEncoding::Compress)
    } else if set.contains(HttpEncoding::Exi) {
        Some(HttpEncoding::Exi)
    } else if set.contains(HttpEncoding::Identity) {
        Some(HttpEncoding::Identity)
    } else if set.contains(HttpEncoding::Zstd) {
        Some(HttpEncoding::Zstd)
    } else if set.contains(HttpEncoding::Unsupported) {
        Some(HttpEncoding::Unsupported)
    } else {
        None
    }
}

/// `lowest_encoding` is the minimum of the set by rank: it is a member, no
/// member ranks below it, and it is absent only for the empty set.
pub proof fn lemma_lowest_encoding(set: Set<HttpEncoding>)
    ensures
        match lowest_encoding(set) {
            Some(lowest) => set.contains(lowest) && forall|e: HttpEncoding|
                set.contains(e) ==> lowest.rank() <= e.rank(),
            None => forall|e: HttpEncoding| !set.contains(e),
        },
{
}

/// A set of encodings, kept by rank.
#[derive(Debug, Clone, Copy)]
pub struct EncodingSet {
    present: [bool; 8],
}

impl View for EncodingSet {
    type V = Set<HttpEncoding>;

    closed spec fn view(&self) -> Set<HttpEncoding> {
        Set::new(|e: HttpEncoding| self.present[e.rank() as int])
    }
}

fn rank_of(encoding: HttpEncoding) -> (rank: usize)
    ensures
        rank == encoding.rank(),
{
    match encoding {
        HttpEncoding::Gzip => 0,
        HttpEncoding::Deflate => 1,
        HttpEncoding::Brotli => 2,
        HttpEncoding::Compress => 3,
        HttpEncoding::Exi => 4,
        HttpEncoding::Identity => 5,
        HttpEncoding::Zstd => 6,
        HttpEncoding::Unsupported => 7,
    }
}

impl EncodingSet {
    /// The empty set.
    pub fn new() -> (set: EncodingSet)
        ensures
            set@ == Set::<HttpEncoding>::empty(),
    {
        let set = EncodingSet { present: [false; 8] };
        assert(set@ =~= Set::<HttpEncoding>::empty());
        set
    }

    /// Adds `encoding` to the set.
    pub fn insert(&mut self, encoding: HttpEncoding)
        ensures
            final(self)@ == old(self)@.insert(encoding),
    {
        let rank = rank_of(encoding);
        self.present[rank] = true;
        assert(self@ =~= old(self)@.insert(encoding)) by {
            assert forall|e: HttpEncoding| self@.contains(e) == old(self)@.insert(
                encoding,
            ).contains(e) by {
                assert(e.rank() == encoding.rank() <==> e == encoding);
            }
        }
    }

    /// Tells whether `encoding` is in the set.
    pub fn contains(&self, encoding: HttpEncoding) -> (r: bool)
        ensures
            r == self@.contains(encoding),
    {
        self.present[rank_of(encoding)]
    }

    /// The member of lowest rank, if there is any.
    pub fn first(&self) -> (r: Option<HttpEncoding>)
        ensures
            r == lowest_encoding(self@),
    {
        if self.contains(HttpEncoding::Gzip) {
            Some(HttpEncoding::Gzip)
        } else if self.contains(HttpEncoding::Deflate) {
            Some(HttpEncoding::Deflate)
        } else if self.contains(HttpEncoding::Brotli) {
            Some(HttpEncoding::Brotli)
        } else if self.contains(HttpEncoding::Compress) {
            Some(HttpEncoding::Compress)
        } else if self.contains(HttpEncoding::Exi) {
            Some(HttpEncoding::Exi)
        } else if self.contains(HttpEncoding::Identity) {
            Some(HttpEncoding::Identity)
        } else if self.contains(HttpEncoding::Zstd) {
            Some(HttpEncoding::Zstd)
        } else if self.contains(HttpEncoding::Unsupported) {
            Some(HttpEncoding::Unsupported)
        } else {
            None
        }
    }
}

} // verus!
