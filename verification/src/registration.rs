//! First-run registration with the notification service.
//!
//! The notification service attributes a toast to an application only if a
//! Start-Menu shortcut stamped with the application's GUID exists, and shows
//! the name that a registry value declares. Whether the shortcut exists is the
//! one-time flag: where it does, nothing is done. This module decides what is
//! to be done and prepares every value in the form in which the operating
//! system takes it; the caller looks for the shortcut and performs the steps.

use crate::identity::{AppIdentity, Guid, GuidView};
use vstd::prelude::*;
use vstd::string::*;
use vstd::utf8::{encode_utf8, is_ascii_chars_encode_utf8};

verus! {

broadcast use vstd::string::group_string_axioms;

/// The registry path, below the machine-wide root, that holds what the
/// notification service knows of the application.
pub const REGISTRY_SUB_KEY: &'static str = "SOFTWARE\\Classes\\AppUserModelId\\LazyEye";

/// The name of the registry value that declares the application's display name.
pub const DISPLAY_NAME_VALUE: &'static str = "DisplayName";

/// The application's display name.
pub const DISPLAY_NAME: &'static str = "Lazy Eye";

/// Where the shortcut lies, below the user's application-data directory.
pub const SHORTCUT_SUFFIX: &'static str =
    "\\Microsoft\\Windows\\Start Menu\\Programs\\Lazy Eye.lnk";

/// Why a value cannot be handed to the operating system.
#[derive(Debug, Clone, Copy, PartialEq, Eq, Structural)]
pub enum RegistrationError {
    /// A text holds a zero byte, which would end it early.
    InteriorNul,
    /// The data of a registry value, with its terminating zero, is longer than
    /// a 32-bit length can say.
    TooLong,
}

/// Whether the UTF-8 bytes of a text hold a zero.
pub open spec fn has_interior_nul(s: Seq<char>) -> bool {
    encode_utf8(s).contains(0u8)
}

/// A text as the operating system's byte-string calls take it: its UTF-8
/// bytes, then a terminating zero.
pub open spec fn c_string(s: Seq<char>) -> Seq<u8> {
    encode_utf8(s).push(0u8)
}

/// The UTF-16 code units of one character: the character itself where it fits
/// in 16 bits, else a high and a low surrogate.
pub open spec fn utf16_of_char(c: char) -> Seq<u16> {
    let v = c as u32;
    if v < 0x1_0000 {
        seq![v as u16]
    } else {
        seq![(0xD800 + (v - 0x1_0000) / 0x400) as u16, (0xDC00 + (v - 0x1_0000) % 0x400) as u16]
    }
}

/// The UTF-16 code units of a text.
pub open spec fn utf16(s: Seq<char>) -> Seq<u16>
    decreases s.len(),
{
    if s.len() == 0 {
        Seq::empty()
    } else {
        utf16(s.drop_last()) + utf16_of_char(s.last())
    }
}

/// A text as the operating system's wide-character calls take it: its UTF-16
/// code units, then a terminating zero.
pub open spec fn wide_string(s: Seq<char>) -> Seq<u16> {
    utf16(s).push(0u16)
}

/// The text as a byte string with a terminating zero. A text that holds a zero
/// byte has no such form.
pub fn nul_terminated(text: &str) -> (bytes: Result<Vec<u8>, RegistrationError>)
    ensures
        has_interior_nul(text@) <==> bytes is Err,
        bytes matches Err(e) ==> e == RegistrationError::InteriorNul,
        bytes matches Ok(v) ==> v@ == c_string(text@),
{
    let mut bytes = text.as_bytes_vec();
    let mut i: usize = 0;
    while i < bytes.len()
        invariant
            i <= bytes.len(),
            bytes@ == encode_utf8(text@),
            forall|j: int| 0 <= j < i ==> bytes@[j] != 0u8,
        decreases bytes.len() - i,
    {
        if bytes[i] == 0 {
            return Err(RegistrationError::InteriorNul);
        }
        i = i + 1;
    }
    bytes.push(0);
    Ok(bytes)
}

/// The text as a wide string with a terminating zero.
pub fn wide_nul_terminated(text: &str) -> (units: Vec<u16>)
    ensures
        units@ == wide_string(text@),
{
    let mut units: Vec<u16> = Vec::new();
    for c in iter: text.chars()
        invariant
            iter.seq() == text@,
            units@ == utf16(text@.take(iter.index() as int)),
    {
        let v: u32 = c as u32;
        if v < 0x1_0000 {
            units.push(v as u16);
        } else {
            units.push((0xD800 + (v - 0x1_0000) / 0x400) as u16);
            units.push((0xDC00 + (v - 0x1_0000) % 0x400) as u16);
        }
        proof {
            let k = iter.index() as int;
            assert(text@.take(k + 1).drop_last() =~= text@.take(k));
        }
    }
    proof {
        assert(text@.take(text@.len() as int) =~= text@);
    }
    units.push(0u16);
    units
}

/// The shortcut whose existence says that the application is registered.
#[derive(Debug, Clone)]
pub struct ShortcutRecord {
    /// Where the shortcut lies.
    pub path: String,
}

impl View for ShortcutRecord {
    type V = Seq<char>;

    open spec fn view(&self) -> Seq<char> {
        self.path@
    }
}

/// The shortcut of the user whose application-data directory is `appdata`.
pub fn shortcut_record(appdata: &str) -> (record: ShortcutRecord)
    ensures
        record@ == appdata@ + "\\Microsoft\\Windows\\Start Menu\\Programs\\Lazy Eye.lnk"@,
{
    let mut path = String::from_str(appdata);
    path.append(SHORTCUT_SUFFIX);
    ShortcutRecord { path }
}

/// A registry value, ready to be written: every text with its terminating
/// zero.
#[derive(Debug, Clone)]
pub struct RegistryValue {
    /// The path of the key below the registry root.
    pub sub_key: Vec<u8>,
    /// The name of the value.
    pub name: Vec<u8>,
    /// The data of the value.
    pub data: Vec<u8>,
    /// The length of the data in bytes, the terminating zero included.
    pub data_len: u32,
}

/// A registry value as plain values.
pub struct RegistryValueView {
    pub sub_key: Seq<u8>,
    pub name: Seq<u8>,
    pub data: Seq<u8>,
    pub data_len: u32,
}

impl View for RegistryValue {
    type V = RegistryValueView;

    open spec fn view(&self) -> RegistryValueView {
        RegistryValueView {
            sub_key: self.sub_key@,
            name: self.name@,
            data: self.data@,
            data_len: self.data_len,
        }
    }
}

/// A length in bytes as the 32-bit number in which the registry takes it.
pub fn length_as_u32(len: usize) -> (length: Result<u32, RegistrationError>)
    ensures
        len <= u32::MAX <==> length is Ok,
        length matches Ok(n) ==> n == len,
        length matches Err(e) ==> e == RegistrationError::TooLong,
{
    if len > u32::MAX as usize {
        Err(RegistrationError::TooLong)
    } else {
        Ok(len as u32)
    }
}

/// The value `name` with the text `data` under the application's registry key,
/// or why there is none.
pub open spec fn registry_value_of(name: Seq<char>, data: Seq<char>) -> Result<
    RegistryValueView,
    RegistrationError,
> {
    if has_interior_nul(name) || has_interior_nul(data) {
        Err(RegistrationError::InteriorNul)
    } else if c_string(data).len() > u32::MAX {
        Err(RegistrationError::TooLong)
    } else {
        Ok(
            RegistryValueView {
                sub_key: c_string("SOFTWARE\\Classes\\AppUserModelId\\LazyEye"@),
                name: c_string(name),
                data: c_string(data),
                data_len: c_string(data).len() as u32,
            },
        )
    }
}

/// The registry path of the application holds no zero byte.
pub proof fn lemma_sub_key_is_plain()
    ensures
        !has_interior_nul(REGISTRY_SUB_KEY@),
{
    reveal_strlit("SOFTWARE\\Classes\\AppUserModelId\\LazyEye");
    is_ascii_chars_encode_utf8(REGISTRY_SUB_KEY@);
}

/// Prepares the value `name` with the text `data` under the application's
/// registry key.
pub fn registry_value(name: &str, data: &str) -> (value: Result<RegistryValue, RegistrationError>)
    ensures
        value is Ok <==> registry_value_of(name@, data@) is Ok,
        value matches Ok(v) ==> Ok::<RegistryValueView, RegistrationError>(v@)
            == registry_value_of(name@, data@),
        value matches Err(e) ==> Err::<RegistryValueView, RegistrationError>(e)
            == registry_value_of(name@, data@),
{
    proof {
        lemma_sub_key_is_plain();
    }
    let sub_key = match nul_terminated(REGISTRY_SUB_KEY) {
        Ok(bytes) => bytes,
        Err(e) => {
            return Err(e);
        },
    };
    let name = match nul_terminated(name) {
        Ok(bytes) => bytes,
        Err(e) => {
            return Err(e);
        },
    };
    let data = match nul_terminated(data) {
        Ok(bytes) => bytes,
        Err(e) => {
            return Err(e);
        },
    };
    let data_len: u32 = match length_as_u32(data.len()) {
        Ok(length) => length,
        Err(e) => {
            return Err(e);
        },
    };
    Ok(RegistryValue { sub_key, name, data, data_len })
}

/// The registry value that declares the application's display name.
pub open spec fn display_name_value() -> RegistryValueView {
    RegistryValueView {
        sub_key: c_string("SOFTWARE\\Classes\\AppUserModelId\\LazyEye"@),
        name: c_string("DisplayName"@),
        data: c_string("Lazy Eye"@),
        data_len: 9,
    }
}

/// The display name can be declared: neither its name nor its text holds a zero
/// byte, and the text is nine bytes long with its terminating zero.
pub proof fn lemma_display_name_value()
    ensures
        registry_value_of("DisplayName"@, "Lazy Eye"@) == Ok::<
            RegistryValueView,
            RegistrationError,
        >(display_name_value()),
{
    reveal_strlit("DisplayName");
    reveal_strlit("Lazy Eye");
    is_ascii_chars_encode_utf8(DISPLAY_NAME_VALUE@);
    is_ascii_chars_encode_utf8(DISPLAY_NAME@);
}

/// A shortcut, ready to be created.
#[derive(Debug, Clone)]
pub struct ShortcutLink {
    /// The program that the shortcut starts, as a byte string with its
    /// terminating zero.
    pub target: Vec<u8>,
    /// The GUID that the shortcut is stamped with.
    pub app_user_model_id: Guid,
    /// Where the shortcut is saved, as a wide string with its terminating zero.
    pub location: Vec<u16>,
    /// The record that exists once the shortcut is saved.
    pub record: ShortcutRecord,
}

/// A shortcut as plain values.
pub struct ShortcutLinkView {
    pub target: Seq<u8>,
    pub app_user_model_id: GuidView,
    pub location: Seq<u16>,
    pub record: Seq<char>,
}

impl View for ShortcutLink {
    type V = ShortcutLinkView;

    open spec fn view(&self) -> ShortcutLinkView {
        ShortcutLinkView {
            target: self.target@,
            app_user_model_id: self.app_user_model_id@,
            location: self.location@,
            record: self.record@,
        }
    }
}

/// The shortcut at `record` that starts the program at `exe_path` and carries
/// `guid`, or why there is none.
pub open spec fn shortcut_link_of(exe_path: Seq<char>, record: Seq<char>, guid: GuidView) -> Result<
    ShortcutLinkView,
    RegistrationError,
> {
    if has_interior_nul(exe_path) {
        Err(RegistrationError::InteriorNul)
    } else {
        Ok(
            ShortcutLinkView {
                target: c_string(exe_path),
                app_user_model_id: guid,
                location: wide_string(record),
                record,
            },
        )
    }
}

/// Prepares the shortcut at `record` that starts the program at `exe_path` and
/// carries the application's GUID.
pub fn shortcut_link(exe_path: &str, record: &ShortcutRecord, identity: &AppIdentity) -> (link:
    Result<ShortcutLink, RegistrationError>)
    ensures
        link is Ok <==> shortcut_link_of(exe_path@, record@, identity@.guid) is Ok,
        link matches Ok(l) ==> Ok::<ShortcutLinkView, RegistrationError>(l@) == shortcut_link_of(
            exe_path@,
            record@,
            identity@.guid,
        ),
        link matches Err(e) ==> Err::<ShortcutLinkView, RegistrationError>(e) == shortcut_link_of(
            exe_path@,
            record@,
            identity@.guid,
        ),
{
    let target = match nul_terminated(exe_path) {
        Ok(bytes) => bytes,
        Err(e) => {
            return Err(e);
        },
    };
    let location = wide_nul_terminated(record.path.as_str());
    Ok(
        ShortcutLink {
            target,
            app_user_model_id: identity.guid,
            location,
            record: ShortcutRecord { path: record.path.clone() },
        },
    )
}

/// One thing to be done to register the application.
#[derive(Debug, Clone)]
pub enum RegistrationStep {
    /// Initialise the component object model on this thread.
    InitializeCom,
    /// Open the machine-wide registry root for writing values.
    OpenRegistry,
    /// Write a value under the opened root.
    SetRegistryValue(RegistryValue),
    /// Create a shortcut and save it.
    CreateShortcut(ShortcutLink),
}

/// One thing to be done, as plain values.
pub enum StepView {
    InitializeCom,
    OpenRegistry,
    SetRegistryValue(RegistryValueView),
    CreateShortcut(ShortcutLinkView),
}

impl View for RegistrationStep {
    type V = StepView;

    open spec fn view(&self) -> StepView {
        match self {
            RegistrationStep::InitializeCom => StepView::InitializeCom,
            RegistrationStep::OpenRegistry => StepView::OpenRegistry,
            RegistrationStep::SetRegistryValue(value) => StepView::SetRegistryValue(value@),
            RegistrationStep::CreateShortcut(link) => StepView::CreateShortcut(link@),
        }
    }
}

/// The steps of a list, each as plain values.
pub open spec fn steps_view(steps: Seq<RegistrationStep>) -> Seq<StepView> {
    steps.map_values(|step: RegistrationStep| step@)
}

/// What a run of the registration does: nothing where the shortcut exists;
/// else, in this order, it initialises the component object model, opens the
/// registry, declares the display name and creates the shortcut. Where the
/// path of the program cannot be handed to the operating system, nothing is
/// done either, and the run fails.
pub open spec fn registration_plan(
    shortcut_exists: bool,
    record: Seq<char>,
    exe_path: Seq<char>,
    guid: GuidView,
) -> Result<Seq<StepView>, RegistrationError> {
    if shortcut_exists {
        Ok(Seq::empty())
    } else {
        match shortcut_link_of(exe_path, record, guid) {
            Err(e) => Err(e),
            Ok(link) => Ok(
                seq![
                    StepView::InitializeCom,
                    StepView::OpenRegistry,
                    StepView::SetRegistryValue(display_name_value()),
                    StepView::CreateShortcut(link),
                ],
            ),
        }
    }
}

/// Decides what this run has to do to register the application, given whether
/// the shortcut at `record` exists.
pub fn plan_registration(
    shortcut_exists: bool,
    record: &ShortcutRecord,
    exe_path: &str,
    identity: &AppIdentity,
) -> (plan: Result<Vec<RegistrationStep>, RegistrationError>)
    ensures
        plan is Ok <==> registration_plan(shortcut_exists, record@, exe_path@, identity@.guid)
            is Ok,
        plan matches Ok(steps) ==> Ok::<Seq<StepView>, RegistrationError>(steps_view(steps@))
            == registration_plan(shortcut_exists, record@, exe_path@, identity@.guid)
            && steps@.len() == (if shortcut_exists { 0nat } else { 4nat }),
        plan matches Err(e) ==> Err::<Seq<StepView>, RegistrationError>(e) == registration_plan(
            shortcut_exists,
            record@,
            exe_path@,
            identity@.guid,
        ),
{
    let mut steps: Vec<RegistrationStep> = Vec::new();
    if shortcut_exists {
        assert(steps_view(steps@) =~= Seq::empty());
        return Ok(steps);
    }
    let link = match shortcut_link(exe_path, record, identity) {
        Ok(link) => link,
        Err(e) => {
            return Err(e);
        },
    };
    proof {
        lemma_display_name_value();
    }
    let value = match registry_value(DISPLAY_NAME_VALUE, DISPLAY_NAME) {
        Ok(value) => value,
        Err(e) => {
            return Err(e);
        },
    };
    steps.push(RegistrationStep::InitializeCom);
    steps.push(RegistrationStep::OpenRegistry);
    steps.push(RegistrationStep::SetRegistryValue(value));
    steps.push(RegistrationStep::CreateShortcut(link));
    assert(steps_view(steps@) =~= registration_plan(
        shortcut_exists,
        record@,
        exe_path@,
        identity@.guid,
    )->Ok_0);
    Ok(steps)
}

/// Whether one of the steps creates the shortcut at `record`.
pub open spec fn creates_shortcut(steps: Seq<StepView>, record: Seq<char>) -> bool {
    exists|i: int|
        0 <= i < steps.len() && (#[trigger] steps[i] matches StepView::CreateShortcut(link)
            && link.record == record)
}

/// Whether the shortcut at `record` exists once `steps` have been performed.
pub open spec fn shortcut_exists_after(existed: bool, steps: Seq<StepView>, record: Seq<char>) -> bool {
    existed || creates_shortcut(steps, record)
}

/// Registration is idempotent: after a run that succeeded the shortcut exists,
/// so the run that follows does nothing. Of two runs in a row, at most the
/// first one has an effect.
pub proof fn lemma_registration_idempotent(
    existed: bool,
    record: Seq<char>,
    exe_path: Seq<char>,
    guid: GuidView,
)
    ensures
        registration_plan(existed, record, exe_path, guid) matches Ok(first) ==> {
            &&& shortcut_exists_after(existed, first, record)
            &&& registration_plan(
                shortcut_exists_after(existed, first, record),
                record,
                exe_path,
                guid,
            ) == Ok::<Seq<StepView>, RegistrationError>(Seq::empty())
        },
{
    if let Ok(first) = registration_plan(existed, record, exe_path, guid) {
        if !existed {
            let link = shortcut_link_of(exe_path, record, guid)->Ok_0;
            assert(first[3] == StepView::CreateShortcut(link));
        }
    }
}

/// A run does nothing exactly where the shortcut exists.
pub proof fn lemma_registration_skipped_iff_registered(
    existed: bool,
    record: Seq<char>,
    exe_path: Seq<char>,
    guid: GuidView,
)
    ensures
        existed <==> registration_plan(existed, record, exe_path, guid) == Ok::<
            Seq<StepView>,
            RegistrationError,
        >(Seq::empty()),
{
    if !existed {
        if let Ok(steps) = registration_plan(existed, record, exe_path, guid) {
            assert(steps.len() == 4);
        }
    }
}

} // verus!
