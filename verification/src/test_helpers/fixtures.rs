use fake::faker::company::en::CompanyName;
use fake::faker::internet::en::DomainSuffix;
use fake::faker::lorem::en::Sentence;
use fake::Fake;
use std::ops::Range;
use vstd::prelude::*;
use vstd::string::StringExecFns;

verus! {

/// Chain identifier of the Sui network.
pub const SUI_CHAIN_ID: i64 = 1;

/// Group type of a group that everybody may join.
pub const PUBLIC_GROUP_TYPE: i32 = 1;

/// Group type of a circle.
pub const CIRCLE_GROUP_TYPE: i32 = 2;

/// A response between two messages as fixtures read it back. Timestamps
/// count microseconds since the Unix epoch, UTC.
#[derive(Debug, Clone, Copy, PartialEq, Eq, Structural)]
pub struct MessageResponse {
    pub id: i64,
    pub created_at: i64,
    pub updated_at: i64,
    pub original_msg_id: i64,
    pub responding_msg_id: i64,
}

/// Why setting fixtures up failed.
#[derive(Debug, Clone)]
pub enum FixtureError {
    /// Data that the fixture needs is not there.
    MissingData(String),
    /// A query that the fixture made failed.
    QueryFailed(String),
}

impl FixtureError {
    /// The message that the failure carries.
    pub open spec fn message(self) -> Seq<char> {
        match self {
            FixtureError::MissingData(msg) => msg@,
            FixtureError::QueryFailed(msg) => msg@,
        }
    }

    /// The failure as text: its message, nothing added.
    pub fn to_string(&self) -> (text: String)
        ensures
            text@ == self.message(),
    {
        match self {
            FixtureError::MissingData(msg) => msg.clone(),
            FixtureError::QueryFailed(msg) => msg.clone(),
        }
    }
}

/// The two bytes that begin a JPEG image.
pub const JPEG_SIGNATURE: [u8; 2] = [0xFF, 0xD8];

/// The two bytes that end a JPEG image.
pub const JPEG_END_SIGNATURE: [u8; 2] = [0xFF, 0xD9];

/// `bytes` begins with the JPEG signature and ends with the JPEG end
/// signature.
pub open spec fn is_jpeg_data(bytes: Seq<u8>) -> bool {
    &&& bytes.len() >= 2
    &&& bytes.subrange(0, 2) == JPEG_SIGNATURE@
    &&& bytes.subrange(bytes.len() - 2, bytes.len() as int) == JPEG_END_SIGNATURE@
}

/// Whether the avatar is a JPEG image, judged by its first and last two
/// bytes.
pub fn is_jpeg(avatar: Vec<u8>) -> (is_valid: bool)
    ensures
        is_valid == is_jpeg_data(avatar@),
{
    let n = avatar.len();
    if n < 2 {
        return false;
    }
    let begins = avatar[0] == JPEG_SIGNATURE[0] && avatar[1] == JPEG_SIGNATURE[1];
    let ends = avatar[n - 2] == JPEG_END_SIGNATURE[0] && avatar[n - 1] == JPEG_END_SIGNATURE[1];
    proof {
        let head = avatar@.subrange(0, 2);
        let tail = avatar@.subrange(n - 2, n as int);
        assert(head[0] == avatar@[0] && head[1] == avatar@[1]);
        assert(tail[0] == avatar@[n - 2] && tail[1] == avatar@[n - 1]);
        if begins {
            assert(head =~= JPEG_SIGNATURE@);
        }
        if ends {
            assert(tail =~= JPEG_END_SIGNATURE@);
        }
    }
    begins && ends
}

/// Whether std counts `c` as white space.
pub uninterp spec fn is_whitespace(c: char) -> bool;

/// `char::is_whitespace` of std: the answer depends on the character alone.
pub assume_specification[ char::is_whitespace ](c: char) -> (r: bool)
    ensures
        r == is_whitespace(c),
;

/// `fake`'s English lorem faker `Sentence`: a random sentence whose number
/// of words is drawn from `min_words..max_words`. Nothing is claimed of the
/// text. The range must not be empty, as drawing from an empty range panics.
#[verifier::external_body]
pub(crate) fn fake_sentence(min_words: usize, max_words: usize) -> String
    requires
        min_words < max_words,
{
    Sentence(Range { start: min_words, end: max_words }).fake()
}

/// `fake`'s English faker `CompanyName`: a random company name. Nothing is
/// claimed of the text.
#[verifier::external_body]
fn fake_company_name() -> String {
    CompanyName().fake()
}

/// `fake`'s English faker `DomainSuffix`: a random top-level domain. Nothing
/// is claimed of the text.
#[verifier::external_body]
fn fake_domain_suffix() -> String {
    DomainSuffix().fake()
}

/// The message body made of a prefix and one sentence: the prefix, or
/// nothing where there is none, then a full stop, a space and the sentence.
pub open spec fn message_body(prefix: Option<Seq<char>>, sentence: Seq<char>) -> Seq<char> {
    let start = match prefix {
        Some(p) => p,
        None => Seq::empty(),
    };
    start + ". "@ + sentence
}

/// Builds the message body from the prefix and a sentence.
pub fn message_body_with(prefix: Option<String>, sentence: &str) -> (body: String)
    ensures
        body@ == message_body(prefix.deep_view(), sentence@),
{
    let mut body = match prefix {
        Some(pref) => pref,
        None => String::new(),
    };
    body.append(". ");
    body.append(sentence);
    body
}

/// A message body for a fixture: the prefix, if any, followed by a random
/// sentence.
pub fn get_fake_message_body(prefix: Option<String>) -> (body: String)
    ensures
        exists|sentence: Seq<char>| body@ == #[trigger] message_body(prefix.deep_view(), sentence),
{
    let random_sentence = fake_sentence(5, 6);
    message_body_with(prefix, random_sentence.as_str())
}

/// `s` without its white-space characters.
pub open spec fn without_whitespace(s: Seq<char>) -> Seq<char> {
    s.filter(|c: char| !is_whitespace(c))
}

/// The URL made of a company name and a top-level domain: `https://`, the
/// name without white space, a dot and the domain.
pub open spec fn main_url(company: Seq<char>, suffix: Seq<char>) -> Seq<char> {
    "https://"@ + without_whitespace(company) + "."@ + suffix
}

/// Copies `s`, leaving its white-space characters out.
pub fn remove_whitespace(s: &str) -> (r: String)
    ensures
        r@ == without_whitespace(s@),
{
    let mut r = String::new();
    let n = s.unicode_len();
    let mut i: usize = 0;
    proof {
        reveal(Seq::filter);
        assert(s@.take(0) =~= Seq::<char>::empty());
    }
    while i < n
        invariant
            n == s@.len(),
            i <= n,
            r@ == without_whitespace(s@.take(i as int)),
        decreases n - i,
    {
        let c = s.get_char(i);
        proof {
            assert(s@.take(i + 1) =~= s@.take(i as int).push(c));
            s@.take(i as int).lemma_filter_push(c, |c: char| !is_whitespace(c));
        }
        if !c.is_whitespace() {
            let ghost kept = r@;
            r.append(s.substring_char(i, i + 1));
            assert(r@ =~= kept.push(c));
        }
        i += 1;
    }
    proof {
        assert(s@.take(n as int) =~= s@);
    }
    r
}

/// Builds the URL from a company name and a top-level domain.
pub fn main_url_from(company: &str, suffix: &str) -> (url: String)
    ensures
        url@ == main_url(company@, suffix@),
{
    let domain = remove_whitespace(company);
    let mut url = String::from_str("https://");
    url.append(domain.as_str());
    url.append(".");
    url.append(suffix);
    url
}

/// A main URL for a fixture: a random company name, white space removed,
/// under a random top-level domain.
pub fn get_fake_main_url() -> (url: String)
    ensures
        exists|company: Seq<char>, suffix: Seq<char>| url@ == #[trigger] main_url(company, suffix),
{
    let company = fake_company_name();
    let suffix = fake_domain_suffix();
    main_url_from(company.as_str(), suffix.as_str())
}

} // verus!
