//! The identity under which the application is known to the notification
//! service: a GUID and a short name.

use vstd::prelude::*;
use vstd::string::*;

verus! {

/// The GUID of the application, in the usual notation: groups of 8, 4, 4, 4 and
/// 12 hexadecimal digits, separated by `-`.
pub const APP_GUID_TEXT: &'static str = "6825c41d-98c8-4ff6-90bc-00acf336d8f3";

/// The name by which the notification service knows the application.
pub const APP_ID: &'static str = "LazyEye";

/// A GUID, in the four parts in which the operating system holds it.
#[derive(Debug, Clone, Copy, PartialEq, Eq)]
pub struct Guid {
    /// The first 8 hexadecimal digits.
    pub data1: u32,
    /// The first group of 4 hexadecimal digits.
    pub data2: u16,
    /// The second group of 4 hexadecimal digits.
    pub data3: u16,
    /// The third group of 4 hexadecimal digits, then the last 12, two digits to
    /// a byte.
    pub data4: [u8; 8],
}

/// A GUID as plain numbers.
pub struct GuidView {
    pub data1: u32,
    pub data2: u16,
    pub data3: u16,
    pub data4: Seq<u8>,
}

impl View for Guid {
    type V = GuidView;

    open spec fn view(&self) -> GuidView {
        GuidView { data1: self.data1, data2: self.data2, data3: self.data3, data4: self.data4@ }
    }
}

/// Whether `c` is one of `0`-`9`, `a`-`f`, `A`-`F`.
pub open spec fn is_hex_digit(c: char) -> bool {
    ('0' <= c && c <= '9') || ('a' <= c && c <= 'f') || ('A' <= c && c <= 'F')
}

/// The number that a hexadecimal digit stands for.
pub open spec fn hex_digit(c: char) -> int {
    if '0' <= c && c <= '9' {
        c as int - '0' as int
    } else if 'a' <= c && c <= 'f' {
        10 + c as int - 'a' as int
    } else {
        10 + c as int - 'A' as int
    }
}

/// Whether `s` holds hexadecimal digits at `at` and `at + 1`.
pub open spec fn is_hex2(s: Seq<char>, at: int) -> bool {
    is_hex_digit(s[at]) && is_hex_digit(s[at + 1])
}

/// Whether `s` holds four hexadecimal digits from `at` on.
pub open spec fn is_hex4(s: Seq<char>, at: int) -> bool {
    is_hex2(s, at) && is_hex2(s, at + 2)
}

/// Whether `s` holds eight hexadecimal digits from `at` on.
pub open spec fn is_hex8(s: Seq<char>, at: int) -> bool {
    is_hex4(s, at) && is_hex4(s, at + 4)
}

/// The number written by the two hexadecimal digits at `at`.
pub open spec fn hex2(s: Seq<char>, at: int) -> int {
    16 * hex_digit(s[at]) + hex_digit(s[at + 1])
}

/// The number written by the four hexadecimal digits from `at` on.
pub open spec fn hex4(s: Seq<char>, at: int) -> int {
    0x100 * hex2(s, at) + hex2(s, at + 2)
}

/// The number written by the eight hexadecimal digits from `at` on.
pub open spec fn hex8(s: Seq<char>, at: int) -> int {
    0x1_0000 * hex4(s, at) + hex4(s, at + 4)
}

/// Whether `s` is a GUID in the usual notation: 36 characters, `-` at the
/// positions 8, 13, 18 and 23, a hexadecimal digit of either case everywhere
/// else.
pub open spec fn is_guid_text(s: Seq<char>) -> bool {
    &&& s.len() == 36
    &&& is_hex8(s, 0)
    &&& s[8] == '-'
    &&& is_hex4(s, 9)
    &&& s[13] == '-'
    &&& is_hex4(s, 14)
    &&& s[18] == '-'
    &&& is_hex4(s, 19)
    &&& s[23] == '-'
    &&& is_hex4(s, 24)
    &&& is_hex8(s, 28)
}

/// The GUID that a text in the usual notation stands for.
pub open spec fn guid_of_text(s: Seq<char>) -> GuidView {
    GuidView {
        data1: hex8(s, 0) as u32,
        data2: hex4(s, 9) as u16,
        data3: hex4(s, 14) as u16,
        data4: seq![
            hex2(s, 19) as u8,
            hex2(s, 21) as u8,
            hex2(s, 24) as u8,
            hex2(s, 26) as u8,
            hex2(s, 28) as u8,
            hex2(s, 30) as u8,
            hex2(s, 32) as u8,
            hex2(s, 34) as u8,
        ],
    }
}

/// Why a text is no GUID.
#[derive(Debug, Clone, Copy, PartialEq, Eq, Structural)]
pub enum GuidError {
    /// The text is not 36 characters long, lacks a `-` where one belongs, or
    /// holds something else than a hexadecimal digit in another place.
    Malformed,
}

fn hex_digit_at(text: &str, at: usize) -> (ok: bool)
    requires
        at < text@.len(),
    ensures
        ok == is_hex_digit(text@[at as int]),
{
    let c = text.get_char(at);
    ('0' <= c && c <= '9') || ('a' <= c && c <= 'f') || ('A' <= c && c <= 'F')
}

fn hex_run_at(text: &str, at: usize, len: usize) -> (ok: bool)
    requires
        at + len <= text@.len() <= usize::MAX,
    ensures
        ok == (forall|i: int| at <= i < at + len ==> is_hex_digit(#[trigger] text@[i])),
{
    let end: usize = at + len;
    let mut i: usize = at;
    while i < end
        invariant
            at <= i <= end,
            end == at + len,
            end <= text@.len(),
            forall|j: int| at <= j < i ==> is_hex_digit(#[trigger] text@[j]),
        decreases end - i,
    {
        if !hex_digit_at(text, i) {
            return false;
        }
        i = i + 1;
    }
    true
}

fn dash_at(text: &str, at: usize) -> (ok: bool)
    requires
        at < text@.len(),
    ensures
        ok == (text@[at as int] == '-'),
{
    text.get_char(at) == '-'
}

/// Whether `text` is a GUID in the usual notation.
pub fn check_guid_text(text: &str) -> (ok: bool)
    ensures
        ok == is_guid_text(text@),
{
    if text.unicode_len() != 36 {
        return false;
    }
    hex_run_at(text, 0, 8) && dash_at(text, 8)
        && hex_run_at(text, 9, 4) && dash_at(text, 13)
        && hex_run_at(text, 14, 4) && dash_at(text, 18)
        && hex_run_at(text, 19, 4) && dash_at(text, 23)
        && hex_run_at(text, 24, 12)
}

/// Reads a GUID in the usual notation with `windows::core::GUID::from`, which
/// is trusted to read each group of hexadecimal digits as one number, most
/// significant digit first: the first group gives `data1`, the second `data2`,
/// the third `data3`, and the last two give the eight bytes of `data4`, two
/// digits to a byte. It panics on any other text, which `requires` leaves out.
#[verifier::external_body]
fn guid_from_text(text: &str) -> (guid: Guid)
    requires
        is_guid_text(text@),
    ensures
        guid@ == guid_of_text(text@),
{
    let parsed = windows::core::GUID::from(text);
    Guid { data1: parsed.data1, data2: parsed.data2, data3: parsed.data3, data4: parsed.data4 }
}

/// Reads a GUID in the usual notation.
pub fn parse_guid(text: &str) -> (parsed: Result<Guid, GuidError>)
    ensures
        is_guid_text(text@) <==> parsed is Ok,
        parsed matches Ok(guid) ==> guid@ == guid_of_text(text@),
        parsed matches Err(e) ==> e == GuidError::Malformed,
{
    if check_guid_text(text) {
        Ok(guid_from_text(text))
    } else {
        Err(GuidError::Malformed)
    }
}

/// The identity of the application: what tags its notifications and its
/// registration as its own. It is made once, at startup, and handed to every
/// part that needs it.
#[derive(Debug, Clone)]
pub struct AppIdentity {
    /// The GUID that the shortcut is stamped with.
    pub guid: Guid,
    /// The name by which the notification service knows the application.
    pub app_id: String,
}

/// The identity of the application as plain values.
pub struct AppIdentityView {
    pub guid: GuidView,
    pub app_id: Seq<char>,
}

impl View for AppIdentity {
    type V = AppIdentityView;

    open spec fn view(&self) -> AppIdentityView {
        AppIdentityView { guid: self.guid@, app_id: self.app_id@ }
    }
}

/// The GUID that `APP_GUID_TEXT` stands for.
pub open spec fn app_guid() -> GuidView {
    GuidView {
        data1: 0x6825_c41d,
        data2: 0x98c8,
        data3: 0x4ff6,
        data4: seq![0x90u8, 0xbcu8, 0x00u8, 0xacu8, 0xf3u8, 0x36u8, 0xd8u8, 0xf3u8],
    }
}

/// `APP_GUID_TEXT` is a GUID in the usual notation, and stands for `app_guid()`.
pub proof fn lemma_app_guid_text()
    ensures
        is_guid_text(APP_GUID_TEXT@),
        guid_of_text(APP_GUID_TEXT@) == app_guid(),
{
    reveal_strlit("6825c41d-98c8-4ff6-90bc-00acf336d8f3");
}

/// Reads `APP_GUID_TEXT`.
pub fn read_app_guid() -> (guid: Guid)
    ensures
        guid@ == app_guid(),
{
    proof {
        lemma_app_guid_text();
    }
    guid_from_text(APP_GUID_TEXT)
}

/// The identity of this application.
pub fn app_identity() -> (identity: AppIdentity)
    ensures
        identity@.guid == app_guid(),
        identity@.app_id == "LazyEye"@,
{
    AppIdentity { guid: read_app_guid(), app_id: String::from_str(APP_ID) }
}

} // verus!
