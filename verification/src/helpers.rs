//! Urls, bookmarks and the image that a tab shows.
use vstd::prelude::*;

use crate::engines::PixelFormat;

verus! {

// ---------------------------------------------------------------- urls

/// Why the `url` crate refused to parse a string.
#[derive(Debug, Clone, Copy, PartialEq, Eq, Structural)]
pub enum UrlParseError {
    /// The string is relative and there is no base to resolve it against.
    RelativeUrlWithoutBase,
    /// Any other reason the parser gives (bad host, bad port, ...).
    Invalid,
}

/// An absolute url, held as its serialization.
#[derive(Debug, Clone, PartialEq)]
pub struct Url {
    serialization: String,
}

impl View for Url {
    type V = Seq<char>;

    closed spec fn view(&self) -> Seq<char> {
        self.serialization@
    }
}

impl DeepView for Url {
    type V = Seq<char>;

    open spec fn deep_view(&self) -> Seq<char> {
        self@
    }
}

impl Url {
    /// The serialization of the url.
    pub fn as_str(&self) -> (res: &str)
        ensures
            res@ == self@,
    {
        self.serialization.as_str()
    }

    /// The serialization of the url, as an owned string.
    pub fn to_string(&self) -> (res: String)
        ensures
            res@ == self@,
    {
        self.serialization.clone()
    }

    /// A url held as the given text, unparsed; used where a parse that is known to
    /// succeed cannot be shown to.
    pub fn unparsed(text: &str) -> (res: Url)
        ensures
            res@ == text@,
    {
        Url { serialization: String::from_str(text) }
    }

    /// A copy of the url.
    pub fn duplicate(&self) -> (res: Url)
        ensures
            res == *self,
    {
        Url { serialization: self.serialization.clone() }
    }
}

/// What `url::Url::parse` gives for a string: the serialization of the parsed url, or
/// the reason it was refused.
pub uninterp spec fn spec_parse_url(input: Seq<char>) -> Result<Seq<char>, UrlParseError>;

/// Calls `url::Url::parse`. The contract names its result: the serialization of the
/// parsed url, or the kind of error (relative without a base, or any other).
#[verifier::external_body]
pub(crate) fn parse_url(input: &str) -> (res: Result<Url, UrlParseError>)
    ensures
        match res {
            Ok(u) => spec_parse_url(input@) == Ok::<Seq<char>, UrlParseError>(u@),
            Err(e) => spec_parse_url(input@) == Err::<Seq<char>, UrlParseError>(e),
        },
{
    match url::Url::parse(input) {
        Ok(u) => Ok(Url { serialization: u.into() }),
        Err(url::ParseError::RelativeUrlWithoutBase) => Err(UrlParseError::RelativeUrlWithoutBase),
        Err(_) => Err(UrlParseError::Invalid),
    }
}

/// The scheme that a relative input is given before it is parsed again.
pub open spec fn https_prefix() -> Seq<char> {
    seq!['h', 't', 't', 'p', 's', ':', '/', '/']
}

/// The url that `to_url` gives for an input: the parsed input if it parses; for a
/// relative input, the parse of the input behind `https://`; otherwise none.
pub open spec fn spec_to_url(input: Seq<char>) -> Option<Seq<char>> {
    match spec_parse_url(input) {
        Ok(u) => Some(u),
        Err(e) => if e == UrlParseError::RelativeUrlWithoutBase {
            match spec_parse_url(https_prefix() + input) {
                Ok(u) => Some(u),
                Err(_) => None,
            }
        } else {
            None
        },
    }
}

/// The input to parse again after a first parse failed with `error`: the input behind
/// `https://` when it was relative, none otherwise.
pub fn retry_with_https(url: &str, error: &UrlParseError) -> (res: Option<String>)
    ensures
        *error == UrlParseError::RelativeUrlWithoutBase ==> res is Some && res->0@ == https_prefix()
            + url@,
        *error != UrlParseError::RelativeUrlWithoutBase ==> res is None,
{
    match error {
        UrlParseError::RelativeUrlWithoutBase => {
            let mut base = String::from_str("https://");
            proof {
                reveal_strlit("https://");
            }
            base.append(url);
            Some(base)
        },
        UrlParseError::Invalid => None,
    }
}

/// Parses a url; a relative one (`example.com`) is taken as `https://example.com`.
pub fn to_url(url: &str) -> (res: Option<Url>)
    ensures
        res.deep_view() == spec_to_url(url@),
{
    match parse_url(url) {
        Ok(u) => Some(u),
        Err(error) => match retry_with_https(url, &error) {
            Some(base) => match parse_url(base.as_str()) {
                Ok(u) => Some(u),
                Err(_) => None,
            },
            None => None,
        },
    }
}

// ----------------------------------------------------------- bookmarks

/// A named url.
#[derive(Debug, Clone, PartialEq)]
pub struct Bookmark {
    url: Url,
    name: String,
}

/// A list of bookmarks.
pub type Bookmarks = Vec<Bookmark>;

impl Bookmark {
    /// The serialization of the bookmark's url.
    pub closed spec fn spec_url(&self) -> Seq<char> {
        self.url@
    }

    /// The bookmark's name.
    pub closed spec fn spec_name(&self) -> Seq<char> {
        self.name@
    }

    /// Creates a bookmark; the url must parse as an absolute url.
    pub fn new(url: &str, name: &str) -> (res: Bookmark)
        requires
            spec_parse_url(url@) is Ok,
        ensures
            res.spec_url() == spec_parse_url(url@)->Ok_0,
            res.spec_name() == name@,
    {
        match parse_url(url) {
            Ok(u) => Bookmark { url: u, name: String::from_str(name) },
            Err(_) => {
                assert(false);
                Bookmark { url: Url { serialization: String::new() }, name: String::new() }
            },
        }
    }

    /// Creates a bookmark when the url parses as an absolute url, and none otherwise.
    pub fn try_new(url: &str, name: &str) -> (res: Option<Bookmark>)
        ensures
            res is Some <==> spec_parse_url(url@) is Ok,
            res is Some ==> res->0.spec_url() == spec_parse_url(url@)->Ok_0 && res->0.spec_name()
                == name@,
    {
        match parse_url(url) {
            Ok(_) => Some(Bookmark::new(url, name)),
            Err(_) => None,
        }
    }

    /// The bookmark's url.
    pub fn url(&self) -> (res: &Url)
        ensures
            res@ == self.spec_url(),
    {
        &self.url
    }

    /// The bookmark's name.
    pub fn name(&self) -> (res: &String)
        ensures
            res@ == self.spec_name(),
    {
        &self.name
    }

    /// How a bookmark is displayed: its name.
    pub fn to_string(&self) -> (res: String)
        ensures
            res@ == self.spec_name(),
    {
        self.name.clone()
    }

    /// A copy of the bookmark.
    pub fn duplicate(&self) -> (res: Bookmark)
        ensures
            res == *self,
    {
        Bookmark { url: self.url.duplicate(), name: self.name.clone() }
    }
}

// --------------------------------------------------------------- images

/// The pixels a tab shows, four bytes per pixel in the order red, green, blue, alpha.
#[derive(Clone, Debug, PartialEq)]
pub struct ImageInfo {
    pub pixels: Vec<u8>,
    pub width: u32,
    pub height: u32,
}

/// `pixels` with the first and third byte of every four swapped: blue-green-red-alpha
/// becomes red-green-blue-alpha and back.
pub open spec fn swap_red_blue(pixels: Seq<u8>) -> Seq<u8> {
    Seq::new(
        pixels.len(),
        |i: int|
            if i % 4 == 0 {
                pixels[i + 2]
            } else if i % 4 == 2 {
                pixels[i - 2]
            } else {
                pixels[i]
            },
    )
}

/// Turns blue-green-red-alpha pixels into red-green-blue-alpha ones.
pub fn bgr_to_rgb(image: Vec<u8>) -> (res: Vec<u8>)
    requires
        image.len() % 4 == 0,
    ensures
        res@ == swap_red_blue(image@),
{
    let mut res: Vec<u8> = Vec::new();
    let mut i: usize = 0;
    while i < image.len()
        invariant
            image.len() % 4 == 0,
            i % 4 == 0,
            i <= image.len(),
            res@ == swap_red_blue(image@).subrange(0, i as int),
        decreases image.len() - i,
    {
        res.push(image[i + 2]);
        res.push(image[i + 1]);
        res.push(image[i]);
        res.push(image[i + 3]);
        i = i + 4;
        assert(res@ =~= swap_red_blue(image@).subrange(0, i as int));
    }
    assert(res@ =~= swap_red_blue(image@));
    res
}

impl ImageInfo {
    /// The width of the default image.
    pub const WIDTH: u32 = 800;

    /// The height of the default image.
    pub const HEIGHT: u32 = 800;

    /// An image of the given size from pixels in the given format; the pixels are kept
    /// as red-green-blue-alpha.
    pub fn new(pixels: Vec<u8>, format: PixelFormat, width: u32, height: u32) -> (res: Self)
        requires
            pixels.len() % 4 == 0,
        ensures
            res.width == width,
            res.height == height,
            res.pixels@ == match format {
                PixelFormat::Rgba => pixels@,
                PixelFormat::Bgra => swap_red_blue(pixels@),
            },
    {
        let pixels = match format {
            PixelFormat::Rgba => pixels,
            PixelFormat::Bgra => bgr_to_rgb(pixels),
        };
        ImageInfo { pixels, width, height }
    }

    /// A copy of the image.
    pub fn duplicate(&self) -> (res: Self)
        ensures
            res.pixels@ == self.pixels@,
            res.width == self.width,
            res.height == self.height,
    {
        let mut pixels: Vec<u8> = Vec::new();
        let mut i: usize = 0;
        while i < self.pixels.len()
            invariant
                i <= self.pixels.len(),
                pixels@ == self.pixels@.subrange(0, i as int),
            decreases self.pixels.len() - i,
        {
            pixels.push(self.pixels[i]);
            i = i + 1;
            assert(pixels@ =~= self.pixels@.subrange(0, i as int));
        }
        assert(pixels@ =~= self.pixels@);
        ImageInfo { pixels, width: self.width, height: self.height }
    }
}

impl Default for ImageInfo {
    /// A white image of the default size.
    fn default() -> (res: Self)
        ensures
            res.width == 800,
            res.height == 800,
            res.pixels@.len() == 800 * 800 * 4,
            forall|i: int| 0 <= i < res.pixels@.len() ==> res.pixels@[i] == 255,
    {
        let n: usize = 800 * 800 * 4;
        let mut pixels: Vec<u8> = Vec::new();
        let mut i: usize = 0;
        while i < n
            invariant
                n == 800 * 800 * 4,
                i <= n,
                pixels@.len() == i,
                forall|k: int| 0 <= k < i ==> pixels@[k] == 255,
            decreases n - i,
        {
            pixels.push(255);
            i = i + 1;
        }
        ImageInfo { pixels, width: Self::WIDTH, height: Self::HEIGHT }
    }

}

} // verus!
