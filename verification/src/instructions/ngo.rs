use crate::address::{is_some_address, Address};
use crate::errors::ErrorCode;
use crate::state::field_worker::FieldWorker;
use crate::state::ngo::NGO;
use crate::state::platform_config::PlatformConfig;
use crate::text::{
    all_fit, byte_len, count_up, counted_up, each_fits, fits, fits_if_given, given_or, option_fits,
    set_if_given,
};
use vstd::prelude::*;

verus! {

/// What an organisation hands in to register.
#[derive(Clone, Debug, PartialEq, Eq)]
pub struct RegisterNGOParams {
    pub name: String,
    pub registration_number: String,
    pub email: String,
    pub phone_number: String,
    pub website: String,
    pub description: String,
    pub address: String,
    pub verification_documents: String,
    pub operating_districts: Vec<String>,
    pub focus_areas: Vec<String>,
    pub contact_person_name: String,
    pub contact_person_role: String,
    pub bank_account_info: String,
    pub tax_id: String,
}

/// What an organisation hands in to register a field worker.
#[derive(Clone, Debug, PartialEq, Eq)]
pub struct RegisterFieldWorkerParams {
    pub name: String,
    pub organization: String,
    pub phone_number: String,
    pub email: String,
    pub assigned_districts: Vec<String>,
    pub credentials: String,
}

/// Whether a field worker is to be active, with a note on why.
#[derive(Clone, Debug, PartialEq, Eq)]
pub struct UpdateFieldWorkerStatusParams {
    pub is_active: bool,
    pub notes: Option<String>,
}

/// The fields of an organisation's profile that are to change.
#[derive(Clone, Debug, PartialEq, Eq)]
pub struct UpdateNGOParams {
    pub name: Option<String>,
    pub email: Option<String>,
    pub phone_number: Option<String>,
    pub website: Option<String>,
    pub description: Option<String>,
    pub address: Option<String>,
    pub verification_documents: Option<String>,
    pub operating_districts: Option<Vec<String>>,
    pub focus_areas: Option<Vec<String>>,
    pub contact_person_name: Option<String>,
    pub contact_person_role: Option<String>,
    pub bank_account_info: Option<String>,
    pub tax_id: Option<String>,
}

/// The fields of a field worker's profile that are to change.
#[derive(Clone, Debug, PartialEq, Eq)]
pub struct UpdateFieldWorkerParams {
    pub name: Option<String>,
    pub email: Option<String>,
    pub phone_number: Option<String>,
    pub organization: Option<String>,
    pub notes: Option<String>,
}

/// Whether the texts of an organisation's registration that are checked
/// before its lists are within their limits.
pub open spec fn ngo_texts_fit_first(params: RegisterNGOParams) -> bool {
    &&& byte_len(params.name@) <= NGO::MAX_NAME_LEN
    &&& byte_len(params.registration_number@) <= NGO::MAX_REGISTRATION_NUMBER_LEN
    &&& byte_len(params.email@) <= NGO::MAX_EMAIL_LEN
    &&& byte_len(params.phone_number@) <= NGO::MAX_PHONE_LEN
    &&& byte_len(params.website@) <= NGO::MAX_WEBSITE_LEN
    &&& byte_len(params.description@) <= NGO::MAX_DESCRIPTION_LEN
    &&& byte_len(params.address@) <= NGO::MAX_ADDRESS_LEN
    &&& byte_len(params.verification_documents@) <= NGO::MAX_VERIFICATION_DOCS_LEN
}

/// Whether the texts of an organisation's registration that are checked after
/// the lengths of its lists are within their limits, the names in the lists
/// included.
pub open spec fn ngo_texts_fit_last(params: RegisterNGOParams) -> bool {
    &&& byte_len(params.contact_person_name@) <= NGO::MAX_CONTACT_NAME_LEN
    &&& byte_len(params.contact_person_role@) <= NGO::MAX_CONTACT_ROLE_LEN
    &&& byte_len(params.bank_account_info@) <= NGO::MAX_BANK_INFO_LEN
    &&& byte_len(params.tax_id@) <= NGO::MAX_TAX_ID_LEN
    &&& each_fits(params.operating_districts@, NGO::MAX_DISTRICT_NAME_LEN)
    &&& each_fits(params.focus_areas@, NGO::MAX_FOCUS_AREA_LEN)
}

/// Why registering an organisation is refused, if it is: the platform must
/// not be paused, every text be within its limit, and neither list longer
/// than it may be.
pub open spec fn ngo_refusal(params: RegisterNGOParams, config: PlatformConfig) -> Option<
    ErrorCode,
> {
    if config.is_paused {
        Some(ErrorCode::PlatformPaused)
    } else if !ngo_texts_fit_first(params) {
        Some(ErrorCode::StringTooLong)
    } else if params.operating_districts@.len() > NGO::MAX_DISTRICTS || params.focus_areas@.len()
        > NGO::MAX_FOCUS_AREAS {
        Some(ErrorCode::VectorTooLong)
    } else if !ngo_texts_fit_last(params) {
        Some(ErrorCode::StringTooLong)
    } else {
        None
    }
}

/// Whether `made` is the record that registering with `params` writes: the
/// profile as handed in, active, not verified, not blacklisted, all counts at
/// zero.
pub open spec fn is_new_ngo(
    made: NGO,
    params: RegisterNGOParams,
    authority: Address,
    bump: u8,
    now: i64,
) -> bool {
    &&& made.notes@ == Seq::<char>::empty()
    &&& made.blacklist_reason@ == Seq::<char>::empty()
    &&& made == (NGO {
        authority,
        name: params.name,
        registration_number: params.registration_number,
        email: params.email,
        phone_number: params.phone_number,
        website: params.website,
        description: params.description,
        address: params.address,
        is_verified: false,
        is_active: true,
        field_workers_count: 0,
        beneficiaries_registered: 0,
        pools_created: 0,
        total_aid_distributed: 0,
        verification_documents: params.verification_documents,
        operating_districts: params.operating_districts,
        focus_areas: params.focus_areas,
        registered_at: now,
        verified_at: None,
        verified_by: None,
        last_activity_at: now,
        contact_person_name: params.contact_person_name,
        contact_person_role: params.contact_person_role,
        bank_account_info: params.bank_account_info,
        tax_id: params.tax_id,
        notes: made.notes,
        is_blacklisted: false,
        blacklist_reason: made.blacklist_reason,
        blacklisted_at: None,
        blacklisted_by: None,
        bump,
    })
}

/// Registers an organisation and returns its record, which awaits
/// verification by the administrator.
pub fn handler(
    config: &mut PlatformConfig,
    params: RegisterNGOParams,
    authority: &Address,
    bump: u8,
    now: i64,
) -> (res: Result<NGO, ErrorCode>)
    ensures
        res is Err <==> ngo_refusal(params, *old(config)) is Some,
        res matches Err(refusal) ==> Some(refusal) == ngo_refusal(params, *old(config)),
        res is Err ==> *final(config) == *old(config),
        res matches Ok(made) ==> is_new_ngo(made, params, *authority, bump, now),
        res is Ok ==> *final(config) == (PlatformConfig {
            total_ngos: counted_up(old(config).total_ngos),
            updated_at: now,
            ..*old(config)
        }),
{
    if config.is_paused {
        return Err(ErrorCode::PlatformPaused);
    }
    if !fits(&params.name, NGO::MAX_NAME_LEN) || !fits(
        &params.registration_number,
        NGO::MAX_REGISTRATION_NUMBER_LEN,
    ) || !fits(&params.email, NGO::MAX_EMAIL_LEN) || !fits(
        &params.phone_number,
        NGO::MAX_PHONE_LEN,
    ) || !fits(&params.website, NGO::MAX_WEBSITE_LEN) || !fits(
        &params.description,
        NGO::MAX_DESCRIPTION_LEN,
    ) || !fits(&params.address, NGO::MAX_ADDRESS_LEN) || !fits(
        &params.verification_documents,
        NGO::MAX_VERIFICATION_DOCS_LEN,
    ) {
        return Err(ErrorCode::StringTooLong);
    }
    if params.operating_districts.len() > NGO::MAX_DISTRICTS || params.focus_areas.len()
        > NGO::MAX_FOCUS_AREAS {
        return Err(ErrorCode::VectorTooLong);
    }
    if !fits(&params.contact_person_name, NGO::MAX_CONTACT_NAME_LEN) || !fits(
        &params.contact_person_role,
        NGO::MAX_CONTACT_ROLE_LEN,
    ) || !fits(&params.bank_account_info, NGO::MAX_BANK_INFO_LEN) || !fits(
        &params.tax_id,
        NGO::MAX_TAX_ID_LEN,
    ) || !all_fit(&params.operating_districts, NGO::MAX_DISTRICT_NAME_LEN) || !all_fit(
        &params.focus_areas,
        NGO::MAX_FOCUS_AREA_LEN,
    ) {
        return Err(ErrorCode::StringTooLong);
    }
    config.total_ngos = count_up(config.total_ngos);
    config.updated_at = now;
    Ok(
        NGO {
            authority: *authority,
            name: params.name,
            registration_number: params.registration_number,
            email: params.email,
            phone_number: params.phone_number,
            website: params.website,
            description: params.description,
            address: params.address,
            is_verified: false,
            is_active: true,
            field_workers_count: 0,
            beneficiaries_registered: 0,
            pools_created: 0,
            total_aid_distributed: 0,
            verification_documents: params.verification_documents,
            operating_districts: params.operating_districts,
            focus_areas: params.focus_areas,
            registered_at: now,
            verified_at: None,
            verified_by: None,
            last_activity_at: now,
            contact_person_name: params.contact_person_name,
            contact_person_role: params.contact_person_role,
            bank_account_info: params.bank_account_info,
            tax_id: params.tax_id,
            notes: String::new(),
            is_blacklisted: false,
            blacklist_reason: String::new(),
            blacklisted_at: None,
            blacklisted_by: None,
            bump,
        },
    )
}

/// Why registering a field worker is refused, if it is: the organisation must
/// be the caller's own, active and not blacklisted, the platform not paused, every text within
/// its limit, the list of districts no longer than it may be, and the
/// organisation's count of workers have room.
pub open spec fn field_worker_refusal(
    params: RegisterFieldWorkerParams,
    ngo: NGO,
    config: PlatformConfig,
    ngo_authority: Address,
) -> Option<ErrorCode> {
    if ngo.authority@ != ngo_authority@ {
        Some(ErrorCode::UnauthorizedNGO)
    } else if !ngo.is_active {
        Some(ErrorCode::NGONotActive)
    } else if config.is_paused {
        Some(ErrorCode::PlatformPaused)
    } else if ngo.is_blacklisted {
        Some(ErrorCode::NGOBlacklisted)
    } else if byte_len(params.name@) > FieldWorker::MAX_NAME_LEN || byte_len(
        params.organization@,
    ) > FieldWorker::MAX_ORGANIZATION_LEN || byte_len(params.phone_number@)
        > FieldWorker::MAX_PHONE_LEN || byte_len(params.email@) > FieldWorker::MAX_EMAIL_LEN {
        Some(ErrorCode::StringTooLong)
    } else if params.assigned_districts@.len() > FieldWorker::MAX_DISTRICTS {
        Some(ErrorCode::VectorTooLong)
    } else if byte_len(params.credentials@) > FieldWorker::MAX_CREDENTIALS_LEN || !each_fits(
        params.assigned_districts@,
        FieldWorker::MAX_DISTRICT_NAME_LEN,
    ) {
        Some(ErrorCode::StringTooLong)
    } else if ngo.field_workers_count == u32::MAX {
        Some(ErrorCode::ArithmeticOverflow)
    } else {
        None
    }
}

/// Whether `made` is the record that registering a worker with `params`
/// writes: the profile as handed in, active from `now`, all counts at zero.
pub open spec fn is_new_field_worker(
    made: FieldWorker,
    params: RegisterFieldWorkerParams,
    authority: Address,
    ngo_key: Address,
    ngo_authority: Address,
    bump: u8,
    now: i64,
) -> bool {
    &&& made.notes@ == Seq::<char>::empty()
    &&& made == (FieldWorker {
        authority,
        name: params.name,
        organization: params.organization,
        ngo: Some(ngo_key),
        phone_number: params.phone_number,
        email: params.email,
        is_active: true,
        verifications_count: 0,
        registrations_count: 0,
        flags_raised: 0,
        assigned_districts: params.assigned_districts,
        credentials: params.credentials,
        registered_at: now,
        activated_at: Some(now),
        deactivated_at: None,
        last_activity_at: now,
        registered_by: ngo_authority,
        notes: made.notes,
        bump,
    })
}

/// Registers a field worker for an organisation and returns the worker's
/// record.
pub fn register_field_worker_handler(
    ngo: &mut NGO,
    config: &mut PlatformConfig,
    params: RegisterFieldWorkerParams,
    authority: &Address,
    ngo_key: &Address,
    ngo_authority: &Address,
    bump: u8,
    now: i64,
) -> (res: Result<FieldWorker, ErrorCode>)
    ensures
        res is Err <==> field_worker_refusal(
            params,
            *old(ngo),
            *old(config),
            *ngo_authority,
        ) is Some,
        res matches Err(refusal) ==> Some(refusal) == field_worker_refusal(
            params,
            *old(ngo),
            *old(config),
            *ngo_authority,
        ),
        res is Err ==> *final(ngo) == *old(ngo) && *final(config) == *old(config),
        res matches Ok(made) ==> is_new_field_worker(
            made,
            params,
            *authority,
            *ngo_key,
            *ngo_authority,
            bump,
            now,
        ),
        res is Ok ==> *final(ngo) == (NGO {
            field_workers_count: (old(ngo).field_workers_count + 1) as u32,
            last_activity_at: now,
            ..*old(ngo)
        }),
        res is Ok ==> *final(config) == (PlatformConfig {
            total_field_workers: counted_up(old(config).total_field_workers),
            updated_at: now,
            ..*old(config)
        }),
{
    if !ngo.authority.same_as(ngo_authority) {
        return Err(ErrorCode::UnauthorizedNGO);
    }
    if !ngo.is_active {
        return Err(ErrorCode::NGONotActive);
    }
    if config.is_paused {
        return Err(ErrorCode::PlatformPaused);
    }
    if ngo.is_blacklisted {
        return Err(ErrorCode::NGOBlacklisted);
    }
    if !fits(&params.name, FieldWorker::MAX_NAME_LEN) || !fits(
        &params.organization,
        FieldWorker::MAX_ORGANIZATION_LEN,
    ) || !fits(&params.phone_number, FieldWorker::MAX_PHONE_LEN) || !fits(
        &params.email,
        FieldWorker::MAX_EMAIL_LEN,
    ) {
        return Err(ErrorCode::StringTooLong);
    }
    if params.assigned_districts.len() > FieldWorker::MAX_DISTRICTS {
        return Err(ErrorCode::VectorTooLong);
    }
    if !fits(&params.credentials, FieldWorker::MAX_CREDENTIALS_LEN) || !all_fit(
        &params.assigned_districts,
        FieldWorker::MAX_DISTRICT_NAME_LEN,
    ) {
        return Err(ErrorCode::StringTooLong);
    }
    if ngo.field_workers_count == u32::MAX {
        return Err(ErrorCode::ArithmeticOverflow);
    }
    ngo.field_workers_count = ngo.field_workers_count + 1;
    ngo.last_activity_at = now;
    config.total_field_workers = count_up(config.total_field_workers);
    config.updated_at = now;
    Ok(
        FieldWorker {
            authority: *authority,
            name: params.name,
            organization: params.organization,
            ngo: Some(*ngo_key),
            phone_number: params.phone_number,
            email: params.email,
            is_active: true,
            verifications_count: 0,
            registrations_count: 0,
            flags_raised: 0,
            assigned_districts: params.assigned_districts,
            credentials: params.credentials,
            registered_at: now,
            activated_at: Some(now),
            deactivated_at: None,
            last_activity_at: now,
            registered_by: *ngo_authority,
            notes: String::new(),
            bump,
        },
    )
}

/// Why a change of a field worker's status is refused, if it is: the
/// organisation must be the caller's own and the worker's own, and the note
/// within its limit.
pub open spec fn status_refusal(
    field_worker: FieldWorker,
    ngo: NGO,
    ngo_key: Address,
    ngo_authority: Address,
    params: UpdateFieldWorkerStatusParams,
) -> Option<ErrorCode> {
    if ngo.authority@ != ngo_authority@ || !is_some_address(field_worker.ngo, ngo_key) {
        Some(ErrorCode::UnauthorizedNGO)
    } else if !fits_if_given(params.notes, FieldWorker::MAX_NOTES_LEN) {
        Some(ErrorCode::StringTooLong)
    } else {
        None
    }
}

/// A field worker with its status set. Where the status changes, the time of
/// the change is kept: activation clears the time of deactivation.
pub open spec fn with_status(
    before: FieldWorker,
    params: UpdateFieldWorkerStatusParams,
    now: i64,
) -> FieldWorker {
    let changes = params.is_active != before.is_active;
    FieldWorker {
        notes: given_or(params.notes, before.notes),
        is_active: params.is_active,
        activated_at: if changes && params.is_active {
            Some(now)
        } else {
            before.activated_at
        },
        deactivated_at: if !changes {
            before.deactivated_at
        } else if params.is_active {
            None
        } else {
            Some(now)
        },
        last_activity_at: now,
        ..before
    }
}

/// Activates or deactivates a field worker of an organisation.
pub fn update_field_worker_status_handler(
    field_worker: &mut FieldWorker,
    ngo: &NGO,
    ngo_key: &Address,
    ngo_authority: &Address,
    params: UpdateFieldWorkerStatusParams,
    now: i64,
) -> (res: Result<(), ErrorCode>)
    ensures
        res == match status_refusal(
            *old(field_worker),
            *ngo,
            *ngo_key,
            *ngo_authority,
            params,
        ) {
            Some(refusal) => Err::<(), ErrorCode>(refusal),
            None => Ok(()),
        },
        res is Err ==> *final(field_worker) == *old(field_worker),
        res is Ok ==> *final(field_worker) == with_status(*old(field_worker), params, now),
{
    if !ngo.authority.same_as(ngo_authority) || !ngo_key.fills(&field_worker.ngo) {
        return Err(ErrorCode::UnauthorizedNGO);
    }
    if !option_fits(&params.notes, FieldWorker::MAX_NOTES_LEN) {
        return Err(ErrorCode::StringTooLong);
    }
    set_if_given(&mut field_worker.notes, params.notes);
    if params.is_active != field_worker.is_active {
        field_worker.is_active = params.is_active;
        if params.is_active {
            field_worker.activated_at = Some(now);
            field_worker.deactivated_at = None;
        } else {
            field_worker.deactivated_at = Some(now);
        }
    }
    field_worker.last_activity_at = now;
    Ok(())
}

/// Whether the texts of a profile update that are checked before its lists
/// are, where given, within their limits.
pub open spec fn ngo_update_fits_first(params: UpdateNGOParams) -> bool {
    &&& fits_if_given(params.name, NGO::MAX_NAME_LEN)
    &&& fits_if_given(params.email, NGO::MAX_EMAIL_LEN)
    &&& fits_if_given(params.phone_number, NGO::MAX_PHONE_LEN)
    &&& fits_if_given(params.website, NGO::MAX_WEBSITE_LEN)
    &&& fits_if_given(params.description, NGO::MAX_DESCRIPTION_LEN)
    &&& fits_if_given(params.address, NGO::MAX_ADDRESS_LEN)
    &&& fits_if_given(params.verification_documents, NGO::MAX_VERIFICATION_DOCS_LEN)
}

/// Whether the texts of a profile update that are checked after its lists
/// are, where given, within their limits.
pub open spec fn ngo_update_fits_last(params: UpdateNGOParams) -> bool {
    &&& fits_if_given(params.contact_person_name, NGO::MAX_CONTACT_NAME_LEN)
    &&& fits_if_given(params.contact_person_role, NGO::MAX_CONTACT_ROLE_LEN)
    &&& fits_if_given(params.bank_account_info, NGO::MAX_BANK_INFO_LEN)
    &&& fits_if_given(params.tax_id, NGO::MAX_TAX_ID_LEN)
}

/// Whether a list, where one is given, has at most `limit` entries.
pub open spec fn list_fits_if_given(list: Option<Vec<String>>, limit: usize) -> bool {
    list matches Some(given) ==> given@.len() <= limit
}

/// Whether an update changes anything: whether any field is given.
pub open spec fn changes_profile(params: UpdateNGOParams) -> bool {
    ||| params.name is Some
    ||| params.email is Some
    ||| params.phone_number is Some
    ||| params.website is Some
    ||| params.description is Some
    ||| params.address is Some
    ||| params.verification_documents is Some
    ||| params.operating_districts is Some
    ||| params.focus_areas is Some
    ||| params.contact_person_name is Some
    ||| params.contact_person_role is Some
    ||| params.bank_account_info is Some
    ||| params.tax_id is Some
}

/// Why an update of an organisation's profile is refused, if it is: the
/// caller must be the organisation's authority, the platform not paused, and
/// each field that is given within its limit.
pub open spec fn ngo_update_refusal(
    ngo: NGO,
    config: PlatformConfig,
    authority: Address,
    params: UpdateNGOParams,
) -> Option<ErrorCode> {
    if ngo.authority@ != authority@ {
        Some(ErrorCode::UnauthorizedNGO)
    } else if config.is_paused {
        Some(ErrorCode::PlatformPaused)
    } else if !ngo_update_fits_first(params) {
        Some(ErrorCode::StringTooLong)
    } else if !list_fits_if_given(params.operating_districts, NGO::MAX_DISTRICTS)
        || !list_fits_if_given(params.focus_areas, NGO::MAX_FOCUS_AREAS) {
        Some(ErrorCode::VectorTooLong)
    } else if !ngo_update_fits_last(params) {
        Some(ErrorCode::StringTooLong)
    } else {
        None
    }
}

/// An organisation's record with the given fields of its profile replaced.
/// An organisation that was verified and changes anything loses its
/// verification: the administrator must verify it anew.
pub open spec fn ngo_updated(before: NGO, params: UpdateNGOParams, now: i64) -> NGO {
    let revoked = changes_profile(params) && before.is_verified;
    NGO {
        name: given_or(params.name, before.name),
        email: given_or(params.email, before.email),
        phone_number: given_or(params.phone_number, before.phone_number),
        website: given_or(params.website, before.website),
        description: given_or(params.description, before.description),
        address: given_or(params.address, before.address),
        verification_documents: given_or(
            params.verification_documents,
            before.verification_documents,
        ),
        operating_districts: given_or(params.operating_districts, before.operating_districts),
        focus_areas: given_or(params.focus_areas, before.focus_areas),
        contact_person_name: given_or(params.contact_person_name, before.contact_person_name),
        contact_person_role: given_or(params.contact_person_role, before.contact_person_role),
        bank_account_info: given_or(params.bank_account_info, before.bank_account_info),
        tax_id: given_or(params.tax_id, before.tax_id),
        is_verified: before.is_verified && !revoked,
        verified_at: if revoked {
            None
        } else {
            before.verified_at
        },
        last_activity_at: now,
        ..before
    }
}

/// Checks the length of a list, where one is given.
fn list_fits(list: &Option<Vec<String>>, limit: usize) -> (ok: bool)
    ensures
        ok == list_fits_if_given(*list, limit),
{
    match list {
        Some(given) => given.len() <= limit,
        None => true,
    }
}

/// Whether any field of an update is given.
fn any_change(params: &UpdateNGOParams) -> (any: bool)
    ensures
        any == changes_profile(*params),
{
    params.name.is_some() || params.email.is_some() || params.phone_number.is_some()
        || params.website.is_some() || params.description.is_some() || params.address.is_some()
        || params.verification_documents.is_some() || params.operating_districts.is_some()
        || params.focus_areas.is_some() || params.contact_person_name.is_some()
        || params.contact_person_role.is_some() || params.bank_account_info.is_some()
        || params.tax_id.is_some()
}

/// Edits an organisation's profile, and returns whether the edit cost the
/// organisation its verification.
pub fn update_ngo_handler(
    ngo: &mut NGO,
    config: &PlatformConfig,
    authority: &Address,
    params: UpdateNGOParams,
    now: i64,
) -> (res: Result<bool, ErrorCode>)
    ensures
        res == match ngo_update_refusal(*old(ngo), *config, *authority, params) {
            Some(refusal) => Err::<bool, ErrorCode>(refusal),
            None => Ok(changes_profile(params) && old(ngo).is_verified),
        },
        res is Err ==> *final(ngo) == *old(ngo),
        res is Ok ==> *final(ngo) == ngo_updated(*old(ngo), params, now),
{
    if !ngo.authority.same_as(authority) {
        return Err(ErrorCode::UnauthorizedNGO);
    }
    if config.is_paused {
        return Err(ErrorCode::PlatformPaused);
    }
    if !option_fits(&params.name, NGO::MAX_NAME_LEN) || !option_fits(
        &params.email,
        NGO::MAX_EMAIL_LEN,
    ) || !option_fits(&params.phone_number, NGO::MAX_PHONE_LEN) || !option_fits(
        &params.website,
        NGO::MAX_WEBSITE_LEN,
    ) || !option_fits(&params.description, NGO::MAX_DESCRIPTION_LEN) || !option_fits(
        &params.address,
        NGO::MAX_ADDRESS_LEN,
    ) || !option_fits(&params.verification_documents, NGO::MAX_VERIFICATION_DOCS_LEN) {
        return Err(ErrorCode::StringTooLong);
    }
    if !list_fits(&params.operating_districts, NGO::MAX_DISTRICTS) || !list_fits(
        &params.focus_areas,
        NGO::MAX_FOCUS_AREAS,
    ) {
        return Err(ErrorCode::VectorTooLong);
    }
    if !option_fits(&params.contact_person_name, NGO::MAX_CONTACT_NAME_LEN) || !option_fits(
        &params.contact_person_role,
        NGO::MAX_CONTACT_ROLE_LEN,
    ) || !option_fits(&params.bank_account_info, NGO::MAX_BANK_INFO_LEN) || !option_fits(
        &params.tax_id,
        NGO::MAX_TAX_ID_LEN,
    ) {
        return Err(ErrorCode::StringTooLong);
    }
    let revoked = any_change(&params) && ngo.is_verified;
    set_if_given(&mut ngo.name, params.name);
    set_if_given(&mut ngo.email, params.email);
    set_if_given(&mut ngo.phone_number, params.phone_number);
    set_if_given(&mut ngo.website, params.website);
    set_if_given(&mut ngo.description, params.description);
    set_if_given(&mut ngo.address, params.address);
    set_if_given(&mut ngo.verification_documents, params.verification_documents);
    set_if_given(&mut ngo.operating_districts, params.operating_districts);
    set_if_given(&mut ngo.focus_areas, params.focus_areas);
    set_if_given(&mut ngo.contact_person_name, params.contact_person_name);
    set_if_given(&mut ngo.contact_person_role, params.contact_person_role);
    set_if_given(&mut ngo.bank_account_info, params.bank_account_info);
    set_if_given(&mut ngo.tax_id, params.tax_id);
    if revoked {
        ngo.is_verified = false;
        ngo.verified_at = None;
    }
    ngo.last_activity_at = now;
    Ok(revoked)
}

/// Why an update of a field worker's profile is refused, if it is: the
/// worker must be one of this organisation, the caller the organisation's
/// authority, the platform not paused, and each text that is given within
/// its limit.
pub open spec fn field_worker_update_refusal(
    field_worker: FieldWorker,
    ngo: NGO,
    config: PlatformConfig,
    ngo_key: Address,
    authority: Address,
    params: UpdateFieldWorkerParams,
) -> Option<ErrorCode> {
    if !is_some_address(field_worker.ngo, ngo_key) {
        Some(ErrorCode::UnauthorizedFieldWorker)
    } else if ngo.authority@ != authority@ {
        Some(ErrorCode::UnauthorizedNGO)
    } else if config.is_paused {
        Some(ErrorCode::PlatformPaused)
    } else if !fits_if_given(params.name, FieldWorker::MAX_NAME_LEN) || !fits_if_given(
        params.email,
        FieldWorker::MAX_EMAIL_LEN,
    ) || !fits_if_given(params.phone_number, FieldWorker::MAX_PHONE_LEN) || !fits_if_given(
        params.organization,
        FieldWorker::MAX_ORGANIZATION_LEN,
    ) || !fits_if_given(params.notes, FieldWorker::MAX_NOTES_LEN) {
        Some(ErrorCode::StringTooLong)
    } else {
        None
    }
}

/// A field worker's record with the given fields of its profile replaced.
pub open spec fn field_worker_updated(
    before: FieldWorker,
    params: UpdateFieldWorkerParams,
    now: i64,
) -> FieldWorker {
    FieldWorker {
        name: given_or(params.name, before.name),
        email: given_or(params.email, before.email),
        phone_number: given_or(params.phone_number, before.phone_number),
        organization: given_or(params.organization, before.organization),
        notes: given_or(params.notes, before.notes),
        last_activity_at: now,
        ..before
    }
}

/// Edits the profile of a field worker of an organisation.
pub fn update_field_worker_handler(
    field_worker: &mut FieldWorker,
    ngo: &NGO,
    config: &PlatformConfig,
    ngo_key: &Address,
    authority: &Address,
    params: UpdateFieldWorkerParams,
    now: i64,
) -> (res: Result<(), ErrorCode>)
    ensures
        res == match field_worker_update_refusal(
            *old(field_worker),
            *ngo,
            *config,
            *ngo_key,
            *authority,
            params,
        ) {
            Some(refusal) => Err::<(), ErrorCode>(refusal),
            None => Ok(()),
        },
        res is Err ==> *final(field_worker) == *old(field_worker),
        res is Ok ==> *final(field_worker) == field_worker_updated(
            *old(field_worker),
            params,
            now,
        ),
{
    if !ngo_key.fills(&field_worker.ngo) {
        return Err(ErrorCode::UnauthorizedFieldWorker);
    }
    if !ngo.authority.same_as(authority) {
        return Err(ErrorCode::UnauthorizedNGO);
    }
    if config.is_paused {
        return Err(ErrorCode::PlatformPaused);
    }
    if !option_fits(&params.name, FieldWorker::MAX_NAME_LEN) || !option_fits(
        &params.email,
        FieldWorker::MAX_EMAIL_LEN,
    ) || !option_fits(&params.phone_number, FieldWorker::MAX_PHONE_LEN) || !option_fits(
        &params.organization,
        FieldWorker::MAX_ORGANIZATION_LEN,
    ) || !option_fits(&params.notes, FieldWorker::MAX_NOTES_LEN) {
        return Err(ErrorCode::StringTooLong);
    }
    set_if_given(&mut field_worker.name, params.name);
    set_if_given(&mut field_worker.email, params.email);
    set_if_given(&mut field_worker.phone_number, params.phone_number);
    set_if_given(&mut field_worker.organization, params.organization);
    set_if_given(&mut field_worker.notes, params.notes);
    field_worker.last_activity_at = now;
    Ok(())
}

} // verus!
