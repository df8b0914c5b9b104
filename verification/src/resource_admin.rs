//! Administration of platform resources: providers, friend bindings and
//! resource cycles, the checks on what an administrator enters, and the
//! pool view grouped by provider.
use vstd::prelude::*;

use crate::domain::clone_opt;
use crate::http_status;
use crate::text::{
    ascii_lower, ascii_upper, chars_eq_str, contains_seq, contains_str, law_keys_ignore_case_and_padding,
    lemma_upper_key_fixed, owned, str_eq, trim, trim_seq, upper_key, upper_key_of,
};

verus! {

#[derive(Debug, Clone, PartialEq, Eq)]
pub enum ResourceAdminError {
    Database(String),
    ProviderNotFound,
    GameAccountNotFound,
    CycleNotFound,
    InvalidProviderStatus,
    InvalidBindingStatus,
    InvalidCycleStatus,
    InvalidResourceType,
    InvalidProviderCode,
    InvalidProviderAlias,
    InvalidNickname,
    InvalidTimeRange,
    InvalidSlotCapacity,
    ProviderAliasConflict,
}

#[derive(Debug, Clone)]
pub struct UpsertProviderRequest {
    pub provider_code: String,
    pub game_uid: Option<String>,
    pub nickname: String,
    pub provider_alias: String,
    pub server_name: Option<String>,
    pub status: Option<String>,
}

/// A new resource cycle; instants in milliseconds.
#[derive(Debug, Clone)]
pub struct CreateResourceCycleRequest {
    pub resource_type: String,
    pub resource_level: i32,
    pub start_at_ms: i64,
    pub end_at_ms: i64,
    pub slot_capacity: i32,
}

#[derive(Debug, Clone, PartialEq, Eq)]
pub struct ProviderView {
    pub id: i64,
    pub provider_code: String,
    pub game_uid: Option<String>,
    pub nickname: String,
    pub provider_alias: String,
    pub server_name: Option<String>,
    pub status: String,
}

/// A resource cycle as the administration shows it; instants in
/// milliseconds.
#[derive(Debug, Clone, PartialEq, Eq)]
pub struct ResourceCycleView {
    pub id: i64,
    pub resource_type: String,
    pub resource_level: i32,
    pub start_at_ms: i64,
    pub end_at_ms: i64,
    pub slot_capacity: i32,
    pub occupied_slots: i32,
    pub status: String,
    pub verified_binding_count: i64,
}

#[derive(Debug, Clone, PartialEq, Eq)]
pub struct ProviderPoolView {
    pub provider: ProviderView,
    pub cycles: Vec<ResourceCycleView>,
}

#[derive(Debug, Clone, PartialEq, Eq)]
pub struct ResourcePoolView {
    pub providers: Vec<ProviderPoolView>,
}

#[derive(Debug, Clone)]
pub struct ProviderRow {
    pub id: i64,
    pub provider_code: String,
    pub game_uid: Option<String>,
    pub nickname: String,
    pub provider_alias: String,
    pub server_name: Option<String>,
    pub status: String,
}

/// A stored resource cycle; instants in milliseconds.
#[derive(Debug, Clone)]
pub struct ResourceCycleRow {
    pub id: i64,
    pub provider_account_id: i64,
    pub resource_type: String,
    pub resource_level: i32,
    pub start_at_ms: i64,
    pub end_at_ms: i64,
    pub slot_capacity: i32,
    pub occupied_slots: i32,
    pub status: String,
    pub verified_binding_count: i64,
}

/// A provider request after its checks: texts trimmed, blank optional
/// texts dropped, status normalised.
#[derive(Debug, Clone)]
pub struct CheckedProvider {
    pub provider_code: String,
    pub game_uid: Option<String>,
    pub nickname: String,
    pub provider_alias: String,
    pub server_name: Option<String>,
    pub status: &'static str,
}

/// The stored provider status for what an administrator typed.
pub open spec fn provider_status_of(value: Seq<char>) -> Option<Seq<char>> {
    let key = upper_key(value);
    if key == "ACTIVE"@ {
        Some("ACTIVE"@)
    } else if key == "DISABLED"@ {
        Some("DISABLED"@)
    } else {
        None
    }
}

/// The stored friend binding status for what an administrator typed.
pub open spec fn binding_status_of(value: Seq<char>) -> Option<Seq<char>> {
    let key = upper_key(value);
    if key == "VERIFIED"@ {
        Some("VERIFIED"@)
    } else if key == "SUSPECT"@ {
        Some("SUSPECT"@)
    } else if key == "DISABLED"@ {
        Some("DISABLED"@)
    } else {
        None
    }
}

/// The stored cycle status for what an administrator typed.
pub open spec fn cycle_status_of(value: Seq<char>) -> Option<Seq<char>> {
    let key = upper_key(value);
    if key == "AVAILABLE"@ {
        Some("AVAILABLE"@)
    } else if key == "DISABLED"@ {
        Some("DISABLED"@)
    } else {
        None
    }
}

/// The stored resource type for what an administrator typed.
pub open spec fn admin_resource_type_of(value: Seq<char>) -> Option<Seq<char>> {
    let key = upper_key(value);
    if key == "FISH"@ || key == "DOUYU"@ {
        Some("FISH"@)
    } else if key == "TAIKO_JADE"@ || key == "JADE"@ || key == "TAIKO"@ {
        Some("TAIKO_JADE"@)
    } else {
        None
    }
}

pub fn normalize_provider_status(value: &str) -> (r: Result<&'static str, ResourceAdminError>)
    ensures
        match provider_status_of(value@) {
            Some(s) => r matches Ok(t) && t@ == s,
            None => r == Err::<&'static str, ResourceAdminError>(
                ResourceAdminError::InvalidProviderStatus,
            ),
        },
{
    let key = upper_key_of(value);
    if chars_eq_str(&key, "ACTIVE") {
        Ok("ACTIVE")
    } else if chars_eq_str(&key, "DISABLED") {
        Ok("DISABLED")
    } else {
        Err(ResourceAdminError::InvalidProviderStatus)
    }
}

pub fn normalize_binding_status(value: &str) -> (r: Result<&'static str, ResourceAdminError>)
    ensures
        match binding_status_of(value@) {
            Some(s) => r matches Ok(t) && t@ == s,
            None => r == Err::<&'static str, ResourceAdminError>(
                ResourceAdminError::InvalidBindingStatus,
            ),
        },
{
    let key = upper_key_of(value);
    if chars_eq_str(&key, "VERIFIED") {
        Ok("VERIFIED")
    } else if chars_eq_str(&key, "SUSPECT") {
        Ok("SUSPECT")
    } else if chars_eq_str(&key, "DISABLED") {
        Ok("DISABLED")
    } else {
        Err(ResourceAdminError::InvalidBindingStatus)
    }
}

pub fn normalize_cycle_status(value: &str) -> (r: Result<&'static str, ResourceAdminError>)
    ensures
        match cycle_status_of(value@) {
            Some(s) => r matches Ok(t) && t@ == s,
            None => r == Err::<&'static str, ResourceAdminError>(
                ResourceAdminError::InvalidCycleStatus,
            ),
        },
{
    let key = upper_key_of(value);
    if chars_eq_str(&key, "AVAILABLE") {
        Ok("AVAILABLE")
    } else if chars_eq_str(&key, "DISABLED") {
        Ok("DISABLED")
    } else {
        Err(ResourceAdminError::InvalidCycleStatus)
    }
}

pub fn normalize_resource_type(value: &str) -> (r: Result<&'static str, ResourceAdminError>)
    ensures
        match admin_resource_type_of(value@) {
            Some(s) => r matches Ok(t) && t@ == s,
            None => r == Err::<&'static str, ResourceAdminError>(
                ResourceAdminError::InvalidResourceType,
            ),
        },
{
    let key = upper_key_of(value);
    if chars_eq_str(&key, "FISH") || chars_eq_str(&key, "DOUYU") {
        Ok("FISH")
    } else if chars_eq_str(&key, "TAIKO_JADE") || chars_eq_str(&key, "JADE") || chars_eq_str(
        &key,
        "TAIKO",
    ) {
        Ok("TAIKO_JADE")
    } else {
        Err(ResourceAdminError::InvalidResourceType)
    }
}

/// An optional text, trimmed, dropped when nothing is left.
pub open spec fn clean_optional_spec(value: Option<Seq<char>>) -> Option<Seq<char>> {
    match value {
        Some(v) => if trim_seq(v).len() > 0 {
            Some(trim_seq(v))
        } else {
            None
        },
        None => None,
    }
}

pub fn clean_optional(value: Option<&str>) -> (r: Option<&str>)
    ensures
        clean_optional_spec(
            match value {
                Some(v) => Some(v@),
                None => None,
            },
        ) == match r {
            Some(t) => Some(t@),
            None => None,
        },
{
    match value {
        Some(v) => {
            let t = trim(v);
            if t.unicode_len() > 0 {
                Some(t)
            } else {
                None
            }
        },
        None => None,
    }
}

fn clean_optional_owned(value: &Option<String>) -> (r: Option<String>)
    ensures
        r.deep_view() == clean_optional_spec(value.deep_view()),
{
    match value {
        Some(v) => match clean_optional(Some(v.as_str())) {
            Some(t) => Some(owned(t)),
            None => None,
        },
        None => None,
    }
}

/// The first error of a provider request, in this order: a blank code,
/// alias or nickname; an unknown status (missing means active).
pub open spec fn provider_request_error(request: UpsertProviderRequest) -> Option<
    ResourceAdminError,
> {
    if trim_seq(request.provider_code@).len() == 0 {
        Some(ResourceAdminError::InvalidProviderCode)
    } else if trim_seq(request.provider_alias@).len() == 0 {
        Some(ResourceAdminError::InvalidProviderAlias)
    } else if trim_seq(request.nickname@).len() == 0 {
        Some(ResourceAdminError::InvalidNickname)
    } else if provider_status_of(
        match request.status {
            Some(s) => s@,
            None => "ACTIVE"@,
        },
    ) is None {
        Some(ResourceAdminError::InvalidProviderStatus)
    } else {
        None
    }
}

/// Checks and cleans a provider request.
pub fn check_provider_request(request: &UpsertProviderRequest) -> (r: Result<
    CheckedProvider,
    ResourceAdminError,
>)
    ensures
        match provider_request_error(*request) {
            Some(e) => r == Err::<CheckedProvider, ResourceAdminError>(e),
            None => r matches Ok(p) && p.provider_code@ == trim_seq(request.provider_code@)
                && p.provider_alias@ == trim_seq(request.provider_alias@) && p.nickname@
                == trim_seq(request.nickname@) && p.game_uid.deep_view() == clean_optional_spec(
                request.game_uid.deep_view(),
            ) && p.server_name.deep_view() == clean_optional_spec(
                request.server_name.deep_view(),
            ) && Some(p.status@) == provider_status_of(
                match request.status {
                    Some(s) => s@,
                    None => "ACTIVE"@,
                },
            ),
        },
{
    let provider_code = trim(request.provider_code.as_str());
    let provider_alias = trim(request.provider_alias.as_str());
    let nickname = trim(request.nickname.as_str());
    if provider_code.unicode_len() == 0 {
        return Err(ResourceAdminError::InvalidProviderCode);
    }
    if provider_alias.unicode_len() == 0 {
        return Err(ResourceAdminError::InvalidProviderAlias);
    }
    if nickname.unicode_len() == 0 {
        return Err(ResourceAdminError::InvalidNickname);
    }
    let status_text: &str = match &request.status {
        Some(s) => s.as_str(),
        None => "ACTIVE",
    };
    let status = normalize_provider_status(status_text)?;
    Ok(
        CheckedProvider {
            provider_code: owned(provider_code),
            game_uid: clean_optional_owned(&request.game_uid),
            nickname: owned(nickname),
            provider_alias: owned(provider_alias),
            server_name: clean_optional_owned(&request.server_name),
            status,
        },
    )
}

/// The error of a failed provider write: MySQL's duplicate key error on the
/// alias index means that another provider uses the alias.
pub fn map_provider_db_error(code: Option<&str>, message: &str, error_text: String) -> (r:
    ResourceAdminError)
    ensures
        (code matches Some(c) && c@ == "1062"@ && contains_seq(message@, "uk_provider_alias"@))
            ==> r == ResourceAdminError::ProviderAliasConflict,
        !(code matches Some(c) && c@ == "1062"@ && contains_seq(message@, "uk_provider_alias"@))
            ==> r == ResourceAdminError::Database(error_text),
{
    match code {
        Some(c) => if str_eq(c, "1062") && contains_str(message, "uk_provider_alias") {
            return ResourceAdminError::ProviderAliasConflict;
        },
        None => {},
    }
    ResourceAdminError::Database(error_text)
}

/// `v` shows the stored provider `row`.
pub open spec fn shows_provider(v: ProviderView, row: ProviderRow) -> bool {
    &&& v.id == row.id
    &&& v.provider_code@ == row.provider_code@
    &&& v.game_uid.deep_view() == row.game_uid.deep_view()
    &&& v.nickname@ == row.nickname@
    &&& v.provider_alias@ == row.provider_alias@
    &&& v.server_name.deep_view() == row.server_name.deep_view()
    &&& v.status@ == row.status@
}

/// A provider as the administration shows it.
pub fn provider_view(row: &ProviderRow) -> (r: ProviderView)
    ensures
        shows_provider(r, *row),
{
    ProviderView {
        id: row.id,
        provider_code: row.provider_code.clone(),
        game_uid: clone_opt(&row.game_uid),
        nickname: row.nickname.clone(),
        provider_alias: row.provider_alias.clone(),
        server_name: clone_opt(&row.server_name),
        status: row.status.clone(),
    }
}

/// `v` shows the stored resource cycle `row`.
pub open spec fn shows_cycle(v: ResourceCycleView, row: ResourceCycleRow) -> bool {
    &&& v.id == row.id
    &&& v.resource_type@ == row.resource_type@
    &&& v.resource_level == row.resource_level
    &&& v.start_at_ms == row.start_at_ms
    &&& v.end_at_ms == row.end_at_ms
    &&& v.slot_capacity == row.slot_capacity
    &&& v.occupied_slots == row.occupied_slots
    &&& v.status@ == row.status@
    &&& v.verified_binding_count == row.verified_binding_count
}

/// A resource cycle as the administration shows it.
pub fn cycle_view(row: &ResourceCycleRow) -> (r: ResourceCycleView)
    ensures
        shows_cycle(r, *row),
{
    ResourceCycleView {
        id: row.id,
        resource_type: row.resource_type.clone(),
        resource_level: row.resource_level,
        start_at_ms: row.start_at_ms,
        end_at_ms: row.end_at_ms,
        slot_capacity: row.slot_capacity,
        occupied_slots: row.occupied_slots,
        status: row.status.clone(),
        verified_binding_count: row.verified_binding_count,
    }
}

/// The provider with id `id` after a write, as the administration shows it.
pub fn find_provider(providers: &Vec<ProviderRow>, id: i64) -> (r: Result<
    ProviderView,
    ResourceAdminError,
>)
    ensures
        (exists|i: int| 0 <= i < providers@.len() && providers@[i].id == id) ==> (r matches Ok(
            v,
        ) && exists|i: int|
            0 <= i < providers@.len() && providers@[i].id == id && (forall|k: int|
                0 <= k < i ==> providers@[k].id != id) && shows_provider(v, providers@[i])),
        !(exists|i: int| 0 <= i < providers@.len() && providers@[i].id == id) ==> r == Err::<
            ProviderView,
            ResourceAdminError,
        >(ResourceAdminError::ProviderNotFound),
{
    let mut i: usize = 0;
    while i < providers.len()
        invariant
            i <= providers@.len(),
            forall|k: int| 0 <= k < i ==> providers@[k].id != id,
        decreases providers.len() - i,
    {
        if providers[i].id == id {
            return Ok(provider_view(&providers[i]));
        }
        i = i + 1;
    }
    Err(ResourceAdminError::ProviderNotFound)
}

/// The cycle with id `id` after a write, as the administration shows it.
pub fn find_cycle(cycles: &Vec<ResourceCycleRow>, id: i64) -> (r: Result<
    ResourceCycleView,
    ResourceAdminError,
>)
    ensures
        (exists|i: int| 0 <= i < cycles@.len() && cycles@[i].id == id) ==> (r matches Ok(v)
            && exists|i: int|
            0 <= i < cycles@.len() && cycles@[i].id == id && (forall|k: int|
                0 <= k < i ==> cycles@[k].id != id) && shows_cycle(v, cycles@[i])),
        !(exists|i: int| 0 <= i < cycles@.len() && cycles@[i].id == id) ==> r == Err::<
            ResourceCycleView,
            ResourceAdminError,
        >(ResourceAdminError::CycleNotFound),
{
    let mut i: usize = 0;
    while i < cycles.len()
        invariant
            i <= cycles@.len(),
            forall|k: int| 0 <= k < i ==> cycles@[k].id != id,
        decreases cycles.len() - i,
    {
        if cycles[i].id == id {
            return Ok(cycle_view(&cycles[i]));
        }
        i = i + 1;
    }
    Err(ResourceAdminError::CycleNotFound)
}

/// The first error of a new cycle for a provider, in this order: an
/// unknown provider, an end not after the start, a capacity below one, an
/// unknown resource type. A valid cycle gives its stored resource type.
pub fn check_cycle_request(provider_exists: bool, request: &CreateResourceCycleRequest) -> (r:
    Result<&'static str, ResourceAdminError>)
    ensures
        !provider_exists ==> r == Err::<&'static str, ResourceAdminError>(
            ResourceAdminError::ProviderNotFound,
        ),
        provider_exists && request.end_at_ms <= request.start_at_ms ==> r == Err::<
            &'static str,
            ResourceAdminError,
        >(ResourceAdminError::InvalidTimeRange),
        provider_exists && request.end_at_ms > request.start_at_ms && request.slot_capacity <= 0
            ==> r == Err::<&'static str, ResourceAdminError>(
            ResourceAdminError::InvalidSlotCapacity,
        ),
        provider_exists && request.end_at_ms > request.start_at_ms && request.slot_capacity > 0
            ==> match admin_resource_type_of(request.resource_type@) {
            Some(t) => r matches Ok(s) && s@ == t,
            None => r == Err::<&'static str, ResourceAdminError>(
                ResourceAdminError::InvalidResourceType,
            ),
        },
{
    if !provider_exists {
        return Err(ResourceAdminError::ProviderNotFound);
    }
    if request.end_at_ms <= request.start_at_ms {
        return Err(ResourceAdminError::InvalidTimeRange);
    }
    if request.slot_capacity <= 0 {
        return Err(ResourceAdminError::InvalidSlotCapacity);
    }
    normalize_resource_type(request.resource_type.as_str())
}

/// Whether the provider at index `i` is the first with its id.
pub open spec fn first_with_id(providers: Seq<ProviderRow>, i: int) -> bool {
    forall|k: int| 0 <= k < i ==> providers[k].id != providers[i].id
}

/// The cycles of a provider, in the order they came.
pub open spec fn provider_cycles(cycles: Seq<ResourceCycleRow>, provider_id: i64) -> Seq<
    ResourceCycleRow,
>
    decreases cycles.len(),
{
    if cycles.len() == 0 {
        Seq::empty()
    } else if cycles.last().provider_account_id == provider_id {
        provider_cycles(cycles.drop_last(), provider_id).push(cycles.last())
    } else {
        provider_cycles(cycles.drop_last(), provider_id)
    }
}

/// `views` shows the cycle rows `rows`, one for one and in order.
pub open spec fn shows_cycles(views: Seq<ResourceCycleView>, rows: Seq<ResourceCycleRow>) -> bool {
    &&& views.len() == rows.len()
    &&& forall|j: int| 0 <= j < views.len() ==> shows_cycle(#[trigger] views[j], rows[j])
}

fn cycles_of_provider(cycles: &Vec<ResourceCycleRow>, provider_id: i64) -> (r: Vec<
    ResourceCycleView,
>)
    ensures
        shows_cycles(r@, provider_cycles(cycles@, provider_id)),
{
    let mut out: Vec<ResourceCycleView> = Vec::new();
    let mut i: usize = 0;
    while i < cycles.len()
        invariant
            i <= cycles@.len(),
            shows_cycles(out@, provider_cycles(cycles@.subrange(0, i as int), provider_id)),
        decreases cycles.len() - i,
    {
        let prefix = Ghost(cycles@.subrange(0, i + 1));
        assert(prefix@.drop_last() =~= cycles@.subrange(0, i as int));
        assert(prefix@.last() == cycles@[i as int]);
        if cycles[i].provider_account_id == provider_id {
            out.push(cycle_view(&cycles[i]));
        }
        i = i + 1;
    }
    assert(cycles@.subrange(0, cycles@.len() as int) =~= cycles@);
    out
}

/// The rows of the provider at index `i` in the pool: its cycles at its
/// first occurrence, none at a later one.
pub open spec fn pool_cycles_at(
    providers: Seq<ProviderRow>,
    cycles: Seq<ResourceCycleRow>,
    i: int,
) -> Seq<ResourceCycleRow> {
    if first_with_id(providers, i) {
        provider_cycles(cycles, providers[i].id)
    } else {
        Seq::empty()
    }
}

/// The resource pool: every provider in order, each with its cycles in the
/// order they came; a provider id that occurs again gets no cycles, which
/// all went to its first occurrence.
pub fn group_pool(providers: &Vec<ProviderRow>, cycles: &Vec<ResourceCycleRow>) -> (r:
    ResourcePoolView)
    ensures
        r.providers@.len() == providers@.len(),
        forall|i: int|
            0 <= i < providers@.len() ==> shows_provider(
                (#[trigger] r.providers@[i]).provider,
                providers@[i],
            ) && shows_cycles(r.providers@[i].cycles@, pool_cycles_at(providers@, cycles@, i)),
{
    let mut out: Vec<ProviderPoolView> = Vec::new();
    let mut i: usize = 0;
    while i < providers.len()
        invariant
            i <= providers@.len(),
            out@.len() == i,
            forall|j: int|
                0 <= j < i ==> shows_provider((#[trigger] out@[j]).provider, providers@[j])
                    && shows_cycles(out@[j].cycles@, pool_cycles_at(providers@, cycles@, j)),
        decreases providers.len() - i,
    {
        let id = providers[i].id;
        let mut seen = false;
        let mut k: usize = 0;
        while k < i
            invariant
                i < providers@.len(),
                k <= i,
                id == providers@[i as int].id,
                seen == exists|m: int| 0 <= m < k && providers@[m].id == id,
            decreases i - k,
        {
            if providers[k].id == id {
                seen = true;
            }
            k = k + 1;
        }
        let group = if seen {
            Vec::new()
        } else {
            cycles_of_provider(cycles, id)
        };
        proof {
            if seen {
                assert(!first_with_id(providers@, i as int));
            } else {
                assert(first_with_id(providers@, i as int));
            }
        }
        out.push(ProviderPoolView { provider: provider_view(&providers[i]), cycles: group });
        i = i + 1;
    }
    ResourcePoolView { providers: out }
}

/// The HTTP status that answers a resource administration error.
pub open spec fn resource_admin_status_of(error: ResourceAdminError) -> u16 {
    match error {
        ResourceAdminError::InvalidProviderStatus
        | ResourceAdminError::InvalidBindingStatus
        | ResourceAdminError::InvalidCycleStatus
        | ResourceAdminError::InvalidResourceType
        | ResourceAdminError::InvalidProviderCode
        | ResourceAdminError::InvalidProviderAlias
        | ResourceAdminError::InvalidNickname
        | ResourceAdminError::InvalidTimeRange
        | ResourceAdminError::InvalidSlotCapacity => http_status::BAD_REQUEST,
        ResourceAdminError::ProviderNotFound
        | ResourceAdminError::GameAccountNotFound
        | ResourceAdminError::CycleNotFound => http_status::NOT_FOUND,
        ResourceAdminError::ProviderAliasConflict => http_status::CONFLICT,
        ResourceAdminError::Database(_) => http_status::INTERNAL_SERVER_ERROR,
    }
}

pub fn resource_admin_status_code(error: &ResourceAdminError) -> (r: u16)
    ensures
        r == resource_admin_status_of(*error),
{
    match error {
        ResourceAdminError::InvalidProviderStatus
        | ResourceAdminError::InvalidBindingStatus
        | ResourceAdminError::InvalidCycleStatus
        | ResourceAdminError::InvalidResourceType
        | ResourceAdminError::InvalidProviderCode
        | ResourceAdminError::InvalidProviderAlias
        | ResourceAdminError::InvalidNickname
        | ResourceAdminError::InvalidTimeRange
        | ResourceAdminError::InvalidSlotCapacity => http_status::BAD_REQUEST,
        ResourceAdminError::ProviderNotFound
        | ResourceAdminError::GameAccountNotFound
        | ResourceAdminError::CycleNotFound => http_status::NOT_FOUND,
        ResourceAdminError::ProviderAliasConflict => http_status::CONFLICT,
        ResourceAdminError::Database(_) => http_status::INTERNAL_SERVER_ERROR,
    }
}


/// What an administrator types is stored as the word itself, in upper case
/// and without surrounding whitespace: a binding status exactly when it is
/// VERIFIED, SUSPECT or DISABLED, a provider status exactly when it is
/// ACTIVE or DISABLED, a cycle status exactly when it is AVAILABLE or
/// DISABLED. A resource type is FISH for FISH or DOUYU and TAIKO_JADE for
/// TAIKO_JADE, JADE or TAIKO, and nothing else is accepted.
pub proof fn law_admin_words_are_stored_as_typed(value: Seq<char>)
    ensures
        binding_status_of(value) is Some <==> (upper_key(value) == "VERIFIED"@ || upper_key(value)
            == "SUSPECT"@ || upper_key(value) == "DISABLED"@),
        binding_status_of(value) matches Some(n) ==> n == upper_key(value),
        provider_status_of(value) is Some <==> (upper_key(value) == "ACTIVE"@ || upper_key(value)
            == "DISABLED"@),
        provider_status_of(value) matches Some(n) ==> n == upper_key(value),
        cycle_status_of(value) is Some <==> (upper_key(value) == "AVAILABLE"@ || upper_key(value)
            == "DISABLED"@),
        cycle_status_of(value) matches Some(n) ==> n == upper_key(value),
        (upper_key(value) == "FISH"@ || upper_key(value) == "DOUYU"@) ==> admin_resource_type_of(
            value,
        ) == Some("FISH"@),
        (upper_key(value) == "TAIKO_JADE"@ || upper_key(value) == "JADE"@ || upper_key(value)
            == "TAIKO"@) ==> admin_resource_type_of(value) == Some("TAIKO_JADE"@),
        admin_resource_type_of(value) is Some ==> (upper_key(value) == "FISH"@ || upper_key(value)
            == "DOUYU"@ || upper_key(value) == "TAIKO_JADE"@ || upper_key(value) == "JADE"@
            || upper_key(value) == "TAIKO"@),
{
    reveal_strlit("FISH");
    reveal_strlit("DOUYU");
    reveal_strlit("TAIKO_JADE");
    reveal_strlit("JADE");
    reveal_strlit("TAIKO");
    assert("JADE"@[0] != "FISH"@[0]);
    assert("JADE"@ != "FISH"@);
    assert("JADE"@ != "DOUYU"@);
    assert("TAIKO"@[0] != "DOUYU"@[0]);
    assert("TAIKO"@ != "DOUYU"@);
    assert("TAIKO"@ != "FISH"@);
    assert("TAIKO_JADE"@ != "FISH"@);
    assert("TAIKO_JADE"@ != "DOUYU"@);
}

proof fn lemma_admin_words()
    ensures
        upper_key("ACTIVE"@) == "ACTIVE"@,
        upper_key("DISABLED"@) == "DISABLED"@,
        upper_key("VERIFIED"@) == "VERIFIED"@,
        upper_key("SUSPECT"@) == "SUSPECT"@,
        upper_key("AVAILABLE"@) == "AVAILABLE"@,
        upper_key("FISH"@) == "FISH"@,
        upper_key("TAIKO_JADE"@) == "TAIKO_JADE"@,
        "ACTIVE"@ != "DISABLED"@,
        "VERIFIED"@ != "SUSPECT"@,
        "VERIFIED"@ != "DISABLED"@,
        "SUSPECT"@ != "DISABLED"@,
        "AVAILABLE"@ != "DISABLED"@,
        "TAIKO_JADE"@ != "FISH"@,
        "TAIKO_JADE"@ != "DOUYU"@,
{
    reveal_strlit("ACTIVE");
    reveal_strlit("DISABLED");
    reveal_strlit("VERIFIED");
    reveal_strlit("SUSPECT");
    reveal_strlit("AVAILABLE");
    reveal_strlit("FISH");
    reveal_strlit("DOUYU");
    reveal_strlit("TAIKO_JADE");
    lemma_upper_key_fixed("ACTIVE"@);
    lemma_upper_key_fixed("DISABLED"@);
    lemma_upper_key_fixed("VERIFIED"@);
    lemma_upper_key_fixed("SUSPECT"@);
    lemma_upper_key_fixed("AVAILABLE"@);
    lemma_upper_key_fixed("FISH"@);
    lemma_upper_key_fixed("TAIKO_JADE"@);
    assert("ACTIVE"@.len() != "DISABLED"@.len());
    assert("VERIFIED"@.len() != "SUSPECT"@.len());
    assert("VERIFIED"@[0] != "DISABLED"@[0]);
    assert("SUSPECT"@.len() != "DISABLED"@.len());
    assert("AVAILABLE"@.len() != "DISABLED"@.len());
    assert("TAIKO_JADE"@.len() != "FISH"@.len());
    assert("TAIKO_JADE"@.len() != "DOUYU"@.len());
}

/// What an administrator types as a provider, binding or cycle status or
/// as a resource type is matched regardless of ASCII case and surrounding
/// whitespace, and each stored value, typed again, gives itself.
pub proof fn law_admin_values_normalize(value: Seq<char>)
    ensures
        provider_status_of(trim_seq(value)) == provider_status_of(value),
        provider_status_of(ascii_lower(value)) == provider_status_of(value),
        provider_status_of(ascii_upper(value)) == provider_status_of(value),
        binding_status_of(trim_seq(value)) == binding_status_of(value),
        binding_status_of(ascii_lower(value)) == binding_status_of(value),
        binding_status_of(ascii_upper(value)) == binding_status_of(value),
        cycle_status_of(trim_seq(value)) == cycle_status_of(value),
        cycle_status_of(ascii_lower(value)) == cycle_status_of(value),
        cycle_status_of(ascii_upper(value)) == cycle_status_of(value),
        admin_resource_type_of(trim_seq(value)) == admin_resource_type_of(value),
        admin_resource_type_of(ascii_lower(value)) == admin_resource_type_of(value),
        admin_resource_type_of(ascii_upper(value)) == admin_resource_type_of(value),
        provider_status_of(value) matches Some(n) ==> provider_status_of(n) == Some(n),
        binding_status_of(value) matches Some(n) ==> binding_status_of(n) == Some(n),
        cycle_status_of(value) matches Some(n) ==> cycle_status_of(n) == Some(n),
        admin_resource_type_of(value) matches Some(n) ==> admin_resource_type_of(n) == Some(n),
{
    law_keys_ignore_case_and_padding(value);
    lemma_admin_words();
}

} // verus!
