//! Identity hints of game accounts: their stored names, trusted account
//! identities built from stored rows, and when a set of hints is strong
//! enough to act on.
use vstd::prelude::*;

use crate::domain::{AccountIdentity, DetectedIdentity, FosterTargetIdentity, IdentityType};
use crate::text::{has_text, has_text_seq, str_eq};

verus! {

/// The identity kind that a stored identity type name stands for.
pub open spec fn identity_type_of(name: Seq<char>) -> Option<IdentityType> {
    if name == "MASKED_ACCOUNT"@ {
        Some(IdentityType::MaskedAccount)
    } else if name == "OCR_ALIAS"@ {
        Some(IdentityType::OcrAlias)
    } else if name == "CHARACTER_NAME"@ {
        Some(IdentityType::CharacterName)
    } else if name == "SERVER_NAME"@ {
        Some(IdentityType::ServerName)
    } else if name == "GAME_UID"@ {
        Some(IdentityType::GameUid)
    } else {
        None
    }
}

/// The stored name of an identity kind.
pub open spec fn identity_type_name_of(kind: IdentityType) -> Seq<char> {
    match kind {
        IdentityType::MaskedAccount => "MASKED_ACCOUNT"@,
        IdentityType::OcrAlias => "OCR_ALIAS"@,
        IdentityType::CharacterName => "CHARACTER_NAME"@,
        IdentityType::ServerName => "SERVER_NAME"@,
        IdentityType::GameUid => "GAME_UID"@,
    }
}

/// The identity kind that `name` stands for, if any.
pub fn identity_type_from(name: &str) -> (r: Option<IdentityType>)
    ensures
        r == identity_type_of(name@),
{
    if str_eq(name, "MASKED_ACCOUNT") {
        Some(IdentityType::MaskedAccount)
    } else if str_eq(name, "OCR_ALIAS") {
        Some(IdentityType::OcrAlias)
    } else if str_eq(name, "CHARACTER_NAME") {
        Some(IdentityType::CharacterName)
    } else if str_eq(name, "SERVER_NAME") {
        Some(IdentityType::ServerName)
    } else if str_eq(name, "GAME_UID") {
        Some(IdentityType::GameUid)
    } else {
        None
    }
}

/// The stored name of an identity kind.
pub fn identity_type_name(kind: IdentityType) -> (r: &'static str)
    ensures
        r@ == identity_type_name_of(kind),
{
    match kind {
        IdentityType::MaskedAccount => "MASKED_ACCOUNT",
        IdentityType::OcrAlias => "OCR_ALIAS",
        IdentityType::CharacterName => "CHARACTER_NAME",
        IdentityType::ServerName => "SERVER_NAME",
        IdentityType::GameUid => "GAME_UID",
    }
}

/// An account identity taken by value.
pub struct AccountIdentityView {
    pub kind: IdentityType,
    pub value: Seq<char>,
    pub normalized_value: Seq<char>,
    pub confidence: u8,
}

impl View for AccountIdentity {
    type V = AccountIdentityView;

    open spec fn view(&self) -> AccountIdentityView {
        AccountIdentityView {
            kind: self.kind,
            value: self.value@,
            normalized_value: self.normalized_value@,
            confidence: self.confidence,
        }
    }
}

/// `confidence` limited to the range from 0 to `cap`.
pub open spec fn clamp_confidence(confidence: i32, cap: int) -> int {
    if confidence < 0 {
        0
    } else if confidence > cap {
        cap
    } else {
        confidence as int
    }
}

/// The trusted identity that a stored row stands for: rows of an unknown
/// kind stand for none, and the confidence is limited to `0..=cap`.
pub open spec fn account_identity_of(
    identity_type: Seq<char>,
    value: Seq<char>,
    normalized_value: Seq<char>,
    confidence: i32,
    cap: int,
) -> Option<AccountIdentityView> {
    match identity_type_of(identity_type) {
        Some(kind) => Some(
            AccountIdentityView {
                kind,
                value,
                normalized_value,
                confidence: clamp_confidence(confidence, cap) as u8,
            },
        ),
        None => None,
    }
}

/// The trusted identity that a stored row stands for.
pub fn account_identity_from(
    identity_type: &str,
    value: &String,
    normalized_value: &String,
    confidence: i32,
    cap: u8,
) -> (r: Option<AccountIdentity>)
    ensures
        match account_identity_of(
            identity_type@,
            value@,
            normalized_value@,
            confidence,
            cap as int,
        ) {
            Some(v) => r matches Some(a) && a@ == v,
            None => r is None,
        },
{
    let kind = match identity_type_from(identity_type) {
        Some(kind) => kind,
        None => {
            return None;
        },
    };
    let clamped: u8 = if confidence < 0 {
        0
    } else if confidence > cap as i32 {
        cap
    } else {
        confidence as u8
    };
    Some(
        AccountIdentity {
            kind,
            value: value.clone(),
            normalized_value: normalized_value.clone(),
            confidence: clamped,
        },
    )
}

/// Some text that is not only whitespace.
pub open spec fn opt_has_text(value: Option<Seq<char>>) -> bool {
    match value {
        Some(v) => has_text_seq(v),
        None => false,
    }
}

/// Whether `value` holds text that is not only whitespace.
pub fn opt_text_present(value: &Option<String>) -> (r: bool)
    ensures
        r == opt_has_text(value.deep_view()),
{
    match value {
        Some(v) => has_text(v.as_str()),
        None => false,
    }
}

/// Enough hints to recognise a target account: its game uid; or its
/// character and server names; or its masked account or one of its aliases
/// together with one of the two names.
pub open spec fn identity_sufficient_spec(
    masked_account: bool,
    has_aliases: bool,
    character_name: bool,
    server_name: bool,
    game_uid: bool,
) -> bool {
    ||| game_uid
    ||| (character_name && server_name)
    ||| ((masked_account || has_aliases) && (character_name || server_name))
}

/// Whether the target identity holds enough hints for a foster run.
pub fn identity_is_sufficient(identity: &FosterTargetIdentity) -> (r: bool)
    ensures
        r == identity_sufficient_spec(
            identity.masked_account is Some,
            identity.account_aliases@.len() > 0,
            identity.character_name is Some,
            identity.server_name is Some,
            identity.game_uid is Some,
        ),
{
    identity.game_uid.is_some() || (identity.character_name.is_some()
        && identity.server_name.is_some()) || ((identity.masked_account.is_some()
        || identity.account_aliases.len() > 0) && (identity.character_name.is_some()
        || identity.server_name.is_some()))
}

/// Which hints make a target identity sufficient for a foster run: a game
/// uid on its own; the character and the server name together; or an
/// account hint (the masked account or an alias) with either name. Without
/// a game uid, an identity that names neither the character nor the server
/// is never sufficient, and neither is one with no account hint and at most
/// one of the two names.
pub proof fn law_identity_sufficiency(
    masked_account: bool,
    has_aliases: bool,
    character_name: bool,
    server_name: bool,
    game_uid: bool,
)
    ensures
        game_uid ==> identity_sufficient_spec(
            masked_account,
            has_aliases,
            character_name,
            server_name,
            game_uid,
        ),
        character_name && server_name ==> identity_sufficient_spec(
            masked_account,
            has_aliases,
            character_name,
            server_name,
            game_uid,
        ),
        (masked_account || has_aliases) && (character_name || server_name)
            ==> identity_sufficient_spec(
            masked_account,
            has_aliases,
            character_name,
            server_name,
            game_uid,
        ),
        !game_uid && !character_name && !server_name ==> !identity_sufficient_spec(
            masked_account,
            has_aliases,
            character_name,
            server_name,
            game_uid,
        ),
        !game_uid && !masked_account && !has_aliases && !(character_name && server_name)
            ==> !identity_sufficient_spec(
            masked_account,
            has_aliases,
            character_name,
            server_name,
            game_uid,
        ),
{
}

/// Whether an identity detected at a first enrollment is strong enough to
/// be trusted on its own: both its character name and its server name hold
/// text.
pub fn first_enrollment_has_strong_identity(detected: &DetectedIdentity) -> (r: bool)
    ensures
        r == (opt_has_text(detected.character_name.deep_view()) && opt_has_text(
            detected.server_name.deep_view(),
        )),
{
    opt_text_present(&detected.character_name) && opt_text_present(&detected.server_name)
}


/// Reading back the stored name of an identity kind gives that kind.
pub proof fn law_identity_type_name_round_trip(kind: IdentityType)
    ensures
        identity_type_of(identity_type_name_of(kind)) == Some(kind),
{
    reveal_strlit("MASKED_ACCOUNT");
    reveal_strlit("OCR_ALIAS");
    reveal_strlit("CHARACTER_NAME");
    reveal_strlit("SERVER_NAME");
    reveal_strlit("GAME_UID");
    assert("MASKED_ACCOUNT"@.len() == 14);
    assert("OCR_ALIAS"@.len() == 9);
    assert("CHARACTER_NAME"@.len() == 14);
    assert("SERVER_NAME"@.len() == 11);
    assert("GAME_UID"@.len() == 8);
    assert("MASKED_ACCOUNT"@[0] != "CHARACTER_NAME"@[0]);
}

} // verus!
