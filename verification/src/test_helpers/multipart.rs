//! The body of a `multipart/form-data` request that creates a profile.

use fake::faker::address::en::CountryName;
use fake::faker::internet::en::Username;
use fake::faker::name::en::{FirstName, LastName};
use actix_web::web::BytesMut;
use fake::Fake;
use vstd::prelude::*;
use vstd::string::StringExecFns;
use vstd::utf8::encode_utf8;
use crate::test_helpers::fixtures::{fake_sentence, get_fake_main_url, main_url};

verus! {

/// Mathematical value of a [`ProfileForm`].
pub struct ProfileFormView {
    pub user_name: Seq<char>,
    pub full_name: Seq<char>,
    pub description: Seq<char>,
    pub region: Seq<char>,
    pub main_url: Seq<char>,
}

/// The text fields of the form that creates a profile.
#[derive(Debug, Clone)]
pub struct ProfileForm {
    pub user_name: String,
    pub full_name: String,
    pub description: String,
    pub region: String,
    pub main_url: String,
}

impl View for ProfileForm {
    type V = ProfileFormView;

    open spec fn view(&self) -> ProfileFormView {
        ProfileFormView {
            user_name: self.user_name@,
            full_name: self.full_name@,
            description: self.description@,
            region: self.region@,
            main_url: self.main_url@,
        }
    }
}

/// Two hyphens open every delimiter.
pub const HYPHENS: &'static str = "--";

/// The line break of the format.
pub const LINE_BREAK: &'static str = "\r\n";

/// Two hyphens and a line break close the last delimiter.
pub const CLOSING_HYPHENS: &'static str = "--\r\n";

/// Header of the user name's part, with the blank line behind it.
pub const USER_NAME_HEADER: &'static str = "Content-Disposition: form-data; name=\"user_name\"\r\n\r\n";

/// Header of the full name's part, with the blank line behind it.
pub const FULL_NAME_HEADER: &'static str = "Content-Disposition: form-data; name=\"full_name\"\r\n\r\n";

/// Header of the description's part, with the blank line behind it.
pub const DESCRIPTION_HEADER: &'static str = "Content-Disposition: form-data; name=\"description\"\r\n\r\n";

/// Header of the region's part, with the blank line behind it.
pub const REGION_HEADER: &'static str = "Content-Disposition: form-data; name=\"region\"\r\n\r\n";

/// Header of the main URL's part, with the blank line behind it.
pub const MAIN_URL_HEADER: &'static str = "Content-Disposition: form-data; name=\"main_url\"\r\n\r\n";

/// First header line of the avatar's part.
pub const AVATAR_DISPOSITION: &'static str =
    "Content-Disposition: form-data; name=\"avatar\"; filename=\"profile.jpeg\"\r\n";

/// Second header line of the avatar's part, with the blank line behind it.
pub const AVATAR_CONTENT_TYPE: &'static str = "Content-Type: image/jpeg\r\n\r\n";

/// The line that opens a part: two hyphens, the boundary, a line break.
pub open spec fn delimiter(boundary: Seq<char>) -> Seq<u8> {
    encode_utf8(HYPHENS@) + encode_utf8(boundary) + encode_utf8(LINE_BREAK@)
}

/// The line that closes the body: the boundary between two pairs of
/// hyphens, a line break.
pub open spec fn closing_delimiter(boundary: Seq<char>) -> Seq<u8> {
    encode_utf8(HYPHENS@) + encode_utf8(boundary) + encode_utf8(CLOSING_HYPHENS@)
}

/// A text part: its delimiter, its header with the blank line behind it,
/// the value and a line break.
pub open spec fn text_part(boundary: Seq<char>, header: Seq<char>, value: Seq<char>) -> Seq<u8> {
    delimiter(boundary) + encode_utf8(header) + encode_utf8(value) + encode_utf8(LINE_BREAK@)
}

/// The avatar part behind its delimiter: the two header lines, a blank
/// line, the image and a line break.
pub open spec fn avatar_part(avatar: Seq<u8>) -> Seq<u8> {
    encode_utf8(AVATAR_DISPOSITION@)
        + encode_utf8(AVATAR_CONTENT_TYPE@) + avatar + encode_utf8(LINE_BREAK@)
}

/// The whole body: the five text parts in the order user name, full name,
/// description, region, main URL; one more delimiter; the avatar part where
/// one is asked for; the closing delimiter.
pub open spec fn multipart_body(form: ProfileFormView, avatar: Seq<u8>, boundary: Seq<char>, with_avatar: bool) -> Seq<
    u8,
> {
    text_part(boundary, USER_NAME_HEADER@, form.user_name)
        + text_part(boundary, FULL_NAME_HEADER@, form.full_name)
        + text_part(boundary, DESCRIPTION_HEADER@, form.description)
        + text_part(boundary, REGION_HEADER@, form.region)
        + text_part(boundary, MAIN_URL_HEADER@, form.main_url)
        + delimiter(boundary) + (if with_avatar {
        avatar_part(avatar)
    } else {
        Seq::empty()
    }) + closing_delimiter(boundary)
}

/// The buffer type of the `bytes` crate, as `actix_web::web` hands it on.
#[verifier::external_type_specification]
#[verifier::external_body]
pub struct ExBytesMut(BytesMut);

/// The bytes that a buffer holds, first to last.
pub uninterp spec fn buffer_bytes(buffer: BytesMut) -> Seq<u8>;

/// The most bytes that a buffer can hold.
pub open spec fn max_buffer_len() -> int {
    isize::MAX as int
}

/// `BytesMut::new`: a buffer that holds no byte.
#[verifier::external_body]
fn new_buffer() -> (buffer: BytesMut)
    ensures
        buffer_bytes(buffer) == Seq::<u8>::empty(),
{
    BytesMut::new()
}

/// `BytesMut::extend_from_slice`: the given bytes are appended to those
/// that the buffer holds. Growing a buffer beyond `isize::MAX` bytes
/// panics, so the sum of the two lengths must stay within that.
#[verifier::external_body]
fn extend_buffer(buffer: &mut BytesMut, bytes: &[u8])
    requires
        buffer_bytes(*old(buffer)).len() + bytes@.len() <= max_buffer_len(),
    ensures
        buffer_bytes(*final(buffer)) == buffer_bytes(*old(buffer)) + bytes@,
{
    buffer.extend_from_slice(bytes)
}

/// Appends `text`, encoded as UTF-8, to `payload`.
fn push_text(payload: &mut BytesMut, text: &str)
    requires
        buffer_bytes(*old(payload)).len() + encode_utf8(text@).len() <= max_buffer_len(),
    ensures
        buffer_bytes(*final(payload)) == buffer_bytes(*old(payload)) + encode_utf8(text@),
{
    extend_buffer(payload, text.as_bytes());
}

/// Appends the delimiter of `boundary` to `payload`.
fn push_delimiter(payload: &mut BytesMut, boundary: &str)
    requires
        buffer_bytes(*old(payload)).len() + delimiter(boundary@).len() <= max_buffer_len(),
    ensures
        buffer_bytes(*final(payload)) == buffer_bytes(*old(payload)) + delimiter(boundary@),
{
    push_text(payload, HYPHENS);
    push_text(payload, boundary);
    push_text(payload, LINE_BREAK);
    assert(buffer_bytes(*payload) =~= buffer_bytes(*old(payload)) + delimiter(boundary@));
}

/// Appends a text part to `payload`.
fn push_text_part(payload: &mut BytesMut, boundary: &str, header: &str, value: &str)
    requires
        buffer_bytes(*old(payload)).len() + text_part(boundary@, header@, value@).len() <= max_buffer_len(),
    ensures
        buffer_bytes(*final(payload)) == buffer_bytes(*old(payload)) + text_part(boundary@, header@, value@),
{
    push_delimiter(payload, boundary);
    push_text(payload, header);
    push_text(payload, value);
    push_text(payload, LINE_BREAK);
    assert(buffer_bytes(*payload) =~= buffer_bytes(*old(payload)) + text_part(boundary@, header@, value@));
}

/// Builds the body of the request from the form's fields. The avatar is
/// included only where `with_avatar` says so. The body must fit in a
/// buffer.
pub fn profile_create_multipart_with(form: &ProfileForm, avatar: &Vec<u8>, boundary: &str, with_avatar: bool) -> (payload:
    BytesMut)
    requires
        multipart_body(form@, avatar@, boundary@, with_avatar).len() <= max_buffer_len(),
    ensures
        buffer_bytes(payload) == multipart_body(form@, avatar@, boundary@, with_avatar),
{
    let mut payload = new_buffer();
    push_text_part(
        &mut payload,
        boundary,
        USER_NAME_HEADER,
        form.user_name.as_str(),
    );
    push_text_part(
        &mut payload,
        boundary,
        FULL_NAME_HEADER,
        form.full_name.as_str(),
    );
    push_text_part(
        &mut payload,
        boundary,
        DESCRIPTION_HEADER,
        form.description.as_str(),
    );
    push_text_part(
        &mut payload,
        boundary,
        REGION_HEADER,
        form.region.as_str(),
    );
    push_text_part(
        &mut payload,
        boundary,
        MAIN_URL_HEADER,
        form.main_url.as_str(),
    );
    push_delimiter(&mut payload, boundary);
    let ghost before_avatar = buffer_bytes(payload);
    if with_avatar {
        push_text(
            &mut payload,
            AVATAR_DISPOSITION,
        );
        push_text(&mut payload, AVATAR_CONTENT_TYPE);
        extend_buffer(&mut payload, avatar.as_slice());
        push_text(&mut payload, LINE_BREAK);
        assert(buffer_bytes(payload) =~= before_avatar + avatar_part(avatar@));
    } else {
        assert(buffer_bytes(payload) =~= before_avatar + Seq::<u8>::empty());
    }
    let ghost before_close = buffer_bytes(payload);
    push_text(&mut payload, HYPHENS);
    push_text(&mut payload, boundary);
    push_text(&mut payload, CLOSING_HYPHENS);
    assert(buffer_bytes(payload) =~= before_close + closing_delimiter(boundary@));
    assert(buffer_bytes(payload) =~= multipart_body(form@, avatar@, boundary@, with_avatar));
    payload
}

/// `sum` is `total` and `more` added up where that fits in a buffer, and
/// nothing where it does not or where `total` is nothing already.
pub open spec fn is_sum(sum: Option<usize>, total: Option<usize>, more: int) -> bool {
    match sum {
        Some(n) => total is Some && n == total.unwrap() + more && n <= max_buffer_len(),
        None => total is None || total.unwrap() + more > max_buffer_len(),
    }
}

/// Sums add up: a sum of a sum is the sum of both parts.
proof fn lemma_sums_add_up(total: Option<usize>, first: Option<usize>, second: Option<usize>, a: int, b: int)
    requires
        0 <= a,
        0 <= b,
        is_sum(first, total, a),
        is_sum(second, first, b),
    ensures
        is_sum(second, total, a + b),
{
}

/// `total` and `more` added up, as long as the sum fits in a buffer.
fn add_len(total: Option<usize>, more: usize) -> (sum: Option<usize>)
    ensures
        is_sum(sum, total, more as int),
{
    match total {
        Some(t) => if t <= isize::MAX as usize && more <= isize::MAX as usize - t {
            Some(t + more)
        } else {
            None
        },
        None => None,
    }
}

/// `total` and the length of `text` in UTF-8 added up.
fn add_text_len(total: Option<usize>, text: &str) -> (sum: Option<usize>)
    ensures
        is_sum(sum, total, encode_utf8(text@).len() as int),
{
    add_len(total, text.as_bytes().len())
}

/// `total` and the length of a delimiter added up.
fn add_delimiter_len(total: Option<usize>, boundary: &str) -> (sum: Option<usize>)
    ensures
        is_sum(sum, total, delimiter(boundary@).len() as int),
{
    let first = add_text_len(total, HYPHENS);
    let second = add_text_len(first, boundary);
    let third = add_text_len(second, LINE_BREAK);
    proof {
        let a = encode_utf8(HYPHENS@).len() as int;
        let b = encode_utf8(boundary@).len() as int;
        let c = encode_utf8(LINE_BREAK@).len() as int;
        lemma_sums_add_up(total, first, second, a, b);
        lemma_sums_add_up(total, second, third, a + b, c);
    }
    third
}

/// `total` and the length of a closing delimiter added up.
fn add_closing_delimiter_len(total: Option<usize>, boundary: &str) -> (sum: Option<usize>)
    ensures
        is_sum(sum, total, closing_delimiter(boundary@).len() as int),
{
    let first = add_text_len(total, HYPHENS);
    let second = add_text_len(first, boundary);
    let third = add_text_len(second, CLOSING_HYPHENS);
    proof {
        let a = encode_utf8(HYPHENS@).len() as int;
        let b = encode_utf8(boundary@).len() as int;
        let c = encode_utf8(CLOSING_HYPHENS@).len() as int;
        lemma_sums_add_up(total, first, second, a, b);
        lemma_sums_add_up(total, second, third, a + b, c);
    }
    third
}

/// `total` and the length of a text part added up.
fn add_text_part_len(total: Option<usize>, boundary: &str, header: &str, value: &str) -> (sum: Option<usize>)
    ensures
        is_sum(sum, total, text_part(boundary@, header@, value@).len() as int),
{
    let first = add_delimiter_len(total, boundary);
    let second = add_text_len(first, header);
    let third = add_text_len(second, value);
    let fourth = add_text_len(third, LINE_BREAK);
    proof {
        let a = delimiter(boundary@).len() as int;
        let b = encode_utf8(header@).len() as int;
        let c = encode_utf8(value@).len() as int;
        let d = encode_utf8(LINE_BREAK@).len() as int;
        lemma_sums_add_up(total, first, second, a, b);
        lemma_sums_add_up(total, second, third, a + b, c);
        lemma_sums_add_up(total, third, fourth, a + b + c, d);
    }
    fourth
}

/// `total` and the length of the avatar part added up.
fn add_avatar_part_len(total: Option<usize>, avatar: &Vec<u8>) -> (sum: Option<usize>)
    ensures
        is_sum(sum, total, avatar_part(avatar@).len() as int),
{
    let first = add_text_len(
        total,
        AVATAR_DISPOSITION,
    );
    let second = add_text_len(first, AVATAR_CONTENT_TYPE);
    let third = add_len(second, avatar.len());
    let fourth = add_text_len(third, LINE_BREAK);
    proof {
        let a = encode_utf8(
            AVATAR_DISPOSITION@,
        ).len() as int;
        let b = encode_utf8(AVATAR_CONTENT_TYPE@).len() as int;
        let c = avatar@.len() as int;
        let d = encode_utf8(LINE_BREAK@).len() as int;
        lemma_sums_add_up(total, first, second, a, b);
        lemma_sums_add_up(total, second, third, a + b, c);
        lemma_sums_add_up(total, third, fourth, a + b + c, d);
    }
    fourth
}

/// The length of the body, as long as it fits in a buffer.
pub fn multipart_body_len(form: &ProfileForm, avatar: &Vec<u8>, boundary: &str, with_avatar: bool) -> (len: Option<
    usize,
>)
    ensures
        match len {
            Some(n) => n == multipart_body(form@, avatar@, boundary@, with_avatar).len() && n <= max_buffer_len(),
            None => multipart_body(form@, avatar@, boundary@, with_avatar).len() > max_buffer_len(),
        },
{
    let start: Option<usize> = Some(0);
    let s1 = add_text_part_len(
        start,
        boundary,
        USER_NAME_HEADER,
        form.user_name.as_str(),
    );
    let s2 = add_text_part_len(
        s1,
        boundary,
        FULL_NAME_HEADER,
        form.full_name.as_str(),
    );
    let s3 = add_text_part_len(
        s2,
        boundary,
        DESCRIPTION_HEADER,
        form.description.as_str(),
    );
    let s4 = add_text_part_len(
        s3,
        boundary,
        REGION_HEADER,
        form.region.as_str(),
    );
    let s5 = add_text_part_len(
        s4,
        boundary,
        MAIN_URL_HEADER,
        form.main_url.as_str(),
    );
    let s6 = add_delimiter_len(s5, boundary);
    let s7 = if with_avatar {
        add_avatar_part_len(s6, avatar)
    } else {
        s6
    };
    let s8 = add_closing_delimiter_len(s7, boundary);
    proof {
        let b = boundary@;
        let f = form@;
        let len1 = text_part(b, USER_NAME_HEADER@, f.user_name).len() as int;
        let len2 = text_part(b, FULL_NAME_HEADER@, f.full_name).len() as int;
        let len3 = text_part(b, DESCRIPTION_HEADER@, f.description).len() as int;
        let len4 = text_part(b, REGION_HEADER@, f.region).len() as int;
        let len5 = text_part(b, MAIN_URL_HEADER@, f.main_url).len() as int;
        let len6 = delimiter(b).len() as int;
        let len7 = if with_avatar {
            avatar_part(avatar@).len() as int
        } else {
            0
        };
        let len8 = closing_delimiter(b).len() as int;
        lemma_sums_add_up(start, s1, s2, len1, len2);
        lemma_sums_add_up(start, s2, s3, len1 + len2, len3);
        lemma_sums_add_up(start, s3, s4, len1 + len2 + len3, len4);
        lemma_sums_add_up(start, s4, s5, len1 + len2 + len3 + len4, len5);
        lemma_sums_add_up(start, s5, s6, len1 + len2 + len3 + len4 + len5, len6);
        assert(is_sum(s7, s6, len7));
        lemma_sums_add_up(start, s6, s7, len1 + len2 + len3 + len4 + len5 + len6, len7);
        lemma_sums_add_up(start, s7, s8, len1 + len2 + len3 + len4 + len5 + len6 + len7, len8);
        assert(multipart_body(f, avatar@, b, with_avatar).len() == len1 + len2 + len3 + len4 + len5 + len6 + len7 + len8);
    }
    s8
}

/// `fake`'s English faker `Username`: a random user name. Nothing is claimed
/// of the text.
#[verifier::external_body]
fn fake_username() -> String {
    Username().fake()
}

/// `fake`'s English faker `FirstName`: a random first name. Nothing is
/// claimed of the text.
#[verifier::external_body]
fn fake_first_name() -> String {
    FirstName().fake()
}

/// `fake`'s English faker `LastName`: a random last name. Nothing is claimed
/// of the text.
#[verifier::external_body]
fn fake_last_name() -> String {
    LastName().fake()
}

/// `fake`'s English faker `CountryName`: a random country name. Nothing is
/// claimed of the text.
#[verifier::external_body]
fn fake_country_name() -> String {
    CountryName().fake()
}

/// A full name: first name, a space, last name.
pub open spec fn full_name_of(first: Seq<char>, last: Seq<char>) -> Seq<char> {
    first + " "@ + last
}

/// The form has the shape of one filled with random values: the full name
/// is a first and a last name with a space between them, and the main URL
/// is one made of a company name and a top-level domain.
pub open spec fn is_random_form(form: ProfileFormView) -> bool {
    &&& exists|first: Seq<char>, last: Seq<char>| form.full_name == #[trigger] full_name_of(first, last)
    &&& exists|company: Seq<char>, suffix: Seq<char>| form.main_url == #[trigger] main_url(company, suffix)
}

/// The body of a request that creates a profile with random field values:
/// the avatar is included only where `with_avatar` says so. `None` where
/// the body would not fit in a buffer.
pub fn get_profile_create_multipart(avatar: &Vec<u8>, boundary: &str, with_avatar: bool) -> (payload: Option<
    BytesMut,
>)
    ensures
        exists|form: ProfileFormView|
            is_random_form(form) && match payload {
                Some(p) => buffer_bytes(p) == #[trigger] multipart_body(form, avatar@, boundary@, with_avatar),
                None => multipart_body(form, avatar@, boundary@, with_avatar).len() > max_buffer_len(),
            },
{
    let user_name = fake_username();
    let first_name = fake_first_name();
    let last_name = fake_last_name();
    let mut full_name = first_name.clone();
    full_name.append(" ");
    full_name.append(last_name.as_str());
    assert(full_name@ == full_name_of(first_name@, last_name@));
    let description = fake_sentence(8, 10);
    let region = fake_country_name();
    let main_url = get_fake_main_url();
    let form = ProfileForm { user_name, full_name, description, region, main_url };
    assert(is_random_form(form@));
    match multipart_body_len(&form, avatar, boundary, with_avatar) {
        Some(_) => Some(profile_create_multipart_with(&form, avatar, boundary, with_avatar)),
        None => None,
    }
}

} // verus!
