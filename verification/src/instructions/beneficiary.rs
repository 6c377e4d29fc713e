use crate::address::Address;
use crate::errors::ErrorCode;
use crate::state::beneficiary::Beneficiary;
use crate::state::disaster::DisasterEvent;
use crate::state::duplicate_registry::{NationalIdRegistry, PhoneRegistry};
use crate::state::enums::VerificationStatus;
use crate::state::field_worker::FieldWorker;
use crate::state::location::Location;
use crate::state::ngo::{check_standing, standing_refusal, NGO};
use crate::state::platform_config::PlatformConfig;
use crate::text::{
    byte_len, count_up, counted_up, fits, fits_if_given, given_or, option_fits, set_if_given,
};
use vstd::prelude::*;

verus! {

/// What a field worker hands in to register a beneficiary.
#[derive(Clone, Debug, PartialEq, Eq)]
pub struct RegisterBeneficiaryParams {
    pub disaster_id: String,
    pub name: String,
    pub phone_number: String,
    pub location: Location,
    pub family_size: u8,
    pub damage_severity: u8,
    pub ipfs_document_hash: String,
    pub household_id: Option<String>,
    pub national_id: String,
    pub age: u8,
    pub gender: String,
    pub occupation: String,
    pub damage_description: String,
    pub special_needs: String,
}

/// The fields of a beneficiary's profile that are to change; `None` leaves a
/// field as it is.
#[derive(Clone, Debug, PartialEq, Eq)]
pub struct UpdateBeneficiaryParams {
    pub name: Option<String>,
    pub phone_number: Option<String>,
    pub location: Option<Location>,
    pub family_size: Option<u8>,
    pub damage_severity: Option<u8>,
    pub age: Option<u8>,
    pub gender: Option<String>,
    pub occupation: Option<String>,
    pub ipfs_document_hash: Option<String>,
    pub damage_description: Option<String>,
    pub special_needs: Option<String>,
}

/// Whether every text of a registration is within its limit.
pub open spec fn profile_texts_fit(params: RegisterBeneficiaryParams) -> bool {
    &&& byte_len(params.disaster_id@) <= Beneficiary::MAX_DISASTER_ID_LEN
    &&& byte_len(params.name@) <= Beneficiary::MAX_NAME_LEN
    &&& byte_len(params.phone_number@) <= Beneficiary::MAX_PHONE_LEN
    &&& byte_len(params.ipfs_document_hash@) <= Beneficiary::MAX_IPFS_HASH_LEN
    &&& byte_len(params.national_id@) <= Beneficiary::MAX_NATIONAL_ID_LEN
    &&& byte_len(params.gender@) <= Beneficiary::MAX_GENDER_LEN
    &&& byte_len(params.occupation@) <= Beneficiary::MAX_OCCUPATION_LEN
    &&& byte_len(params.damage_description@) <= Beneficiary::MAX_DAMAGE_DESC_LEN
    &&& byte_len(params.special_needs@) <= Beneficiary::MAX_SPECIAL_NEEDS_LEN
    &&& fits_if_given(params.household_id, Beneficiary::MAX_HOUSEHOLD_ID_LEN)
}

/// Whether a family size is one that a beneficiary can have: 1 to 50.
pub open spec fn family_size_valid(size: u8) -> bool {
    Beneficiary::MIN_FAMILY_SIZE <= size <= Beneficiary::MAX_FAMILY_SIZE
}

/// Whether a damage severity is one that a beneficiary can have: 1 to 10.
pub open spec fn damage_severity_valid(severity: u8) -> bool {
    Beneficiary::MIN_DAMAGE_SEVERITY <= severity <= Beneficiary::MAX_DAMAGE_SEVERITY
}

/// Why registering a beneficiary is refused, if it is.
///
/// The disaster must be active, the field worker's record the caller's own
/// and active, and the platform not paused. A worker that acts for an organisation must hand in that
/// organisation's record, in good standing. Then every text must be within
/// its limit, family size, damage severity and age in range, and the
/// coordinates on the globe. The worker's count of registrations must have
/// room.
pub open spec fn beneficiary_refusal(
    params: RegisterBeneficiaryParams,
    disaster: DisasterEvent,
    field_worker: FieldWorker,
    config: PlatformConfig,
    field_worker_authority: Address,
    ngo_key: Option<Address>,
    ngo: Option<NGO>,
) -> Option<ErrorCode> {
    if !disaster.is_active {
        Some(ErrorCode::DisasterNotActive)
    } else if field_worker.authority@ != field_worker_authority@ {
        Some(ErrorCode::UnauthorizedFieldWorker)
    } else if !field_worker.is_active {
        Some(ErrorCode::FieldWorkerNotActive)
    } else if config.is_paused {
        Some(ErrorCode::PlatformPaused)
    } else if field_worker.ngo is Some && standing_refusal(field_worker.ngo->0@, ngo_key, ngo)
        is Some {
        standing_refusal(field_worker.ngo->0@, ngo_key, ngo)
    } else if !profile_texts_fit(params) {
        Some(ErrorCode::StringTooLong)
    } else if !family_size_valid(params.family_size) {
        Some(ErrorCode::InvalidFamilySize)
    } else if !damage_severity_valid(params.damage_severity) {
        Some(ErrorCode::InvalidDamageSeverity)
    } else if params.age > Beneficiary::MAX_AGE {
        Some(ErrorCode::InvalidAge)
    } else if !params.location.coordinates_valid() {
        Some(ErrorCode::InvalidLocationCoordinates)
    } else if field_worker.registrations_count == u32::MAX {
        Some(ErrorCode::ArithmeticOverflow)
    } else {
        None
    }
}

/// Whether `made` is the record that registering with `params` writes: the
/// profile as handed in, pending, without approvals, flags or receipts.
pub open spec fn is_new_beneficiary(
    made: Beneficiary,
    params: RegisterBeneficiaryParams,
    authority: Address,
    field_worker_authority: Address,
    bump: u8,
    now: i64,
) -> bool {
    &&& made.verifier_approvals@ == Seq::<Address>::empty()
    &&& made == (Beneficiary {
        authority,
        disaster_id: params.disaster_id,
        name: params.name,
        phone_number: params.phone_number,
        location: params.location,
        family_size: params.family_size,
        damage_severity: params.damage_severity,
        verification_status: VerificationStatus::Pending,
        verifier_approvals: made.verifier_approvals,
        ipfs_document_hash: params.ipfs_document_hash,
        household_id: params.household_id,
        registered_at: now,
        verified_at: None,
        nft_mint: None,
        total_received: 0,
        national_id: params.national_id,
        age: params.age,
        gender: params.gender,
        occupation: params.occupation,
        damage_description: params.damage_description,
        special_needs: params.special_needs,
        registered_by: field_worker_authority,
        flagged_reason: None,
        flagged_by: None,
        flagged_at: None,
        admin_notes: None,
        bump,
    })
}

/// Checks the texts of a registration against their limits.
fn profile_fits(params: &RegisterBeneficiaryParams) -> (ok: bool)
    ensures
        ok == profile_texts_fit(*params),
{
    fits(&params.disaster_id, Beneficiary::MAX_DISASTER_ID_LEN) && fits(
        &params.name,
        Beneficiary::MAX_NAME_LEN,
    ) && fits(&params.phone_number, Beneficiary::MAX_PHONE_LEN) && fits(
        &params.ipfs_document_hash,
        Beneficiary::MAX_IPFS_HASH_LEN,
    ) && fits(&params.national_id, Beneficiary::MAX_NATIONAL_ID_LEN) && fits(
        &params.gender,
        Beneficiary::MAX_GENDER_LEN,
    ) && fits(&params.occupation, Beneficiary::MAX_OCCUPATION_LEN) && fits(
        &params.damage_description,
        Beneficiary::MAX_DAMAGE_DESC_LEN,
    ) && fits(&params.special_needs, Beneficiary::MAX_SPECIAL_NEEDS_LEN) && option_fits(
        &params.household_id,
        Beneficiary::MAX_HOUSEHOLD_ID_LEN,
    )
}

/// Registers a beneficiary for a disaster and returns its record, with the
/// two entries that mark its phone number and its national identity number
/// as taken.
///
/// `authority` is the beneficiary's wallet. `ngo_key` and `ngo` are the
/// record of the worker's organisation, as handed in beside the call. That
/// the person, the phone number and the identity number are new is for the
/// store to see to, which holds one record per key.
///
/// Refused as `beneficiary_refusal` says, and then nothing changes. Otherwise
/// the record is as `is_new_beneficiary` says and well formed, and the counts
/// of the disaster, the worker and the platform go up by one.
pub fn handler(
    disaster: &mut DisasterEvent,
    field_worker: &mut FieldWorker,
    config: &mut PlatformConfig,
    params: RegisterBeneficiaryParams,
    authority: &Address,
    field_worker_authority: &Address,
    ngo_key: &Option<Address>,
    ngo: &Option<NGO>,
    bump: u8,
    phone_registry_bump: u8,
    national_id_registry_bump: u8,
    now: i64,
) -> (res: Result<(Beneficiary, PhoneRegistry, NationalIdRegistry), ErrorCode>)
    ensures
        res is Err <==> beneficiary_refusal(
            params,
            *old(disaster),
            *old(field_worker),
            *old(config),
            *field_worker_authority,
            *ngo_key,
            *ngo,
        ) is Some,
        res matches Err(refusal) ==> Some(refusal) == beneficiary_refusal(
            params,
            *old(disaster),
            *old(field_worker),
            *old(config),
            *field_worker_authority,
            *ngo_key,
            *ngo,
        ),
        res is Err ==> *final(disaster) == *old(disaster),
        res is Err ==> *final(field_worker) == *old(field_worker),
        res is Err ==> *final(config) == *old(config),
        res matches Ok(records) ==> is_new_beneficiary(
            records.0,
            params,
            *authority,
            *field_worker_authority,
            bump,
            now,
        ) && records.0.well_formed(),
        res matches Ok(records) ==> records.1 == (PhoneRegistry {
            disaster_id: params.disaster_id,
            phone_number: params.phone_number,
            beneficiary: *authority,
            registered_at: now,
            bump: phone_registry_bump,
        }),
        res matches Ok(records) ==> records.2 == (NationalIdRegistry {
            disaster_id: params.disaster_id,
            national_id: params.national_id,
            beneficiary: *authority,
            registered_at: now,
            bump: national_id_registry_bump,
        }),
        res is Ok ==> *final(disaster) == (DisasterEvent {
            total_beneficiaries: counted_up(old(disaster).total_beneficiaries),
            updated_at: now,
            ..*old(disaster)
        }),
        res is Ok ==> *final(field_worker) == (FieldWorker {
            registrations_count: (old(field_worker).registrations_count + 1) as u32,
            last_activity_at: now,
            ..*old(field_worker)
        }),
        res is Ok ==> *final(config) == (PlatformConfig {
            total_beneficiaries: counted_up(old(config).total_beneficiaries),
            updated_at: now,
            ..*old(config)
        }),
{
    if !disaster.is_active {
        return Err(ErrorCode::DisasterNotActive);
    }
    if !field_worker.authority.same_as(field_worker_authority) {
        return Err(ErrorCode::UnauthorizedFieldWorker);
    }
    if !field_worker.is_active {
        return Err(ErrorCode::FieldWorkerNotActive);
    }
    if config.is_paused {
        return Err(ErrorCode::PlatformPaused);
    }
    if let Some(expected) = &field_worker.ngo {
        if let Err(refusal) = check_standing(expected, ngo_key, ngo) {
            return Err(refusal);
        }
    }
    if !profile_fits(&params) {
        return Err(ErrorCode::StringTooLong);
    }
    if params.family_size < Beneficiary::MIN_FAMILY_SIZE || params.family_size
        > Beneficiary::MAX_FAMILY_SIZE {
        return Err(ErrorCode::InvalidFamilySize);
    }
    if params.damage_severity < Beneficiary::MIN_DAMAGE_SEVERITY || params.damage_severity
        > Beneficiary::MAX_DAMAGE_SEVERITY {
        return Err(ErrorCode::InvalidDamageSeverity);
    }
    if params.age > Beneficiary::MAX_AGE {
        return Err(ErrorCode::InvalidAge);
    }
    if !params.location.has_valid_latitude() || !params.location.has_valid_longitude() {
        return Err(ErrorCode::InvalidLocationCoordinates);
    }
    if field_worker.registrations_count == u32::MAX {
        return Err(ErrorCode::ArithmeticOverflow);
    }
    let phone_registry = PhoneRegistry {
        disaster_id: params.disaster_id.clone(),
        phone_number: params.phone_number.clone(),
        beneficiary: *authority,
        registered_at: now,
        bump: phone_registry_bump,
    };
    let national_id_registry = NationalIdRegistry {
        disaster_id: params.disaster_id.clone(),
        national_id: params.national_id.clone(),
        beneficiary: *authority,
        registered_at: now,
        bump: national_id_registry_bump,
    };
    let beneficiary = Beneficiary {
        authority: *authority,
        disaster_id: params.disaster_id,
        name: params.name,
        phone_number: params.phone_number,
        location: params.location,
        family_size: params.family_size,
        damage_severity: params.damage_severity,
        verification_status: VerificationStatus::Pending,
        verifier_approvals: Vec::new(),
        ipfs_document_hash: params.ipfs_document_hash,
        household_id: params.household_id,
        registered_at: now,
        verified_at: None,
        nft_mint: None,
        total_received: 0,
        national_id: params.national_id,
        age: params.age,
        gender: params.gender,
        occupation: params.occupation,
        damage_description: params.damage_description,
        special_needs: params.special_needs,
        registered_by: *field_worker_authority,
        flagged_reason: None,
        flagged_by: None,
        flagged_at: None,
        admin_notes: None,
        bump,
    };
    disaster.total_beneficiaries = count_up(disaster.total_beneficiaries);
    disaster.updated_at = now;
    field_worker.registrations_count = field_worker.registrations_count + 1;
    field_worker.last_activity_at = now;
    config.total_beneficiaries = count_up(config.total_beneficiaries);
    config.updated_at = now;
    Ok((beneficiary, phone_registry, national_id_registry))
}

/// Whether every text of a profile update, where given, is within its limit.
pub open spec fn update_texts_fit_first(params: UpdateBeneficiaryParams) -> bool {
    &&& fits_if_given(params.name, Beneficiary::MAX_NAME_LEN)
    &&& fits_if_given(params.phone_number, Beneficiary::MAX_PHONE_LEN)
}

/// Whether the texts of a profile update that are checked after the numbers
/// are, where given, within their limits.
pub open spec fn update_texts_fit_last(params: UpdateBeneficiaryParams) -> bool {
    &&& fits_if_given(params.gender, Beneficiary::MAX_GENDER_LEN)
    &&& fits_if_given(params.occupation, Beneficiary::MAX_OCCUPATION_LEN)
    &&& fits_if_given(params.ipfs_document_hash, Beneficiary::MAX_IPFS_HASH_LEN)
    &&& fits_if_given(params.damage_description, Beneficiary::MAX_DAMAGE_DESC_LEN)
    &&& fits_if_given(params.special_needs, Beneficiary::MAX_SPECIAL_NEEDS_LEN)
}

/// Why an update of a beneficiary's profile is refused, if it is.
///
/// Only the field worker that registered the beneficiary may edit it, with
/// its own record, while it is active, and not while the beneficiary is
/// flagged. Each field that is given must pass the check
/// that registration makes of it.
pub open spec fn update_refusal(
    beneficiary: Beneficiary,
    field_worker: FieldWorker,
    editor: Address,
    params: UpdateBeneficiaryParams,
) -> Option<ErrorCode> {
    if beneficiary.registered_by@ != editor@ || field_worker.authority@ != editor@ {
        Some(ErrorCode::UnauthorizedFieldWorker)
    } else if !field_worker.is_active {
        Some(ErrorCode::FieldWorkerNotActive)
    } else if beneficiary.verification_status is Flagged {
        Some(ErrorCode::BeneficiaryFlagged)
    } else if !update_texts_fit_first(params) {
        Some(ErrorCode::StringTooLong)
    } else if params.location is Some && !params.location->0.coordinates_valid() {
        Some(ErrorCode::InvalidLocationCoordinates)
    } else if params.family_size is Some && !family_size_valid(params.family_size->0) {
        Some(ErrorCode::InvalidFamilySize)
    } else if params.damage_severity is Some && !damage_severity_valid(
        params.damage_severity->0,
    ) {
        Some(ErrorCode::InvalidDamageSeverity)
    } else if params.age is Some && params.age->0 > Beneficiary::MAX_AGE {
        Some(ErrorCode::InvalidAge)
    } else if !update_texts_fit_last(params) {
        Some(ErrorCode::StringTooLong)
    } else {
        None
    }
}

/// A beneficiary's record with the given fields of its profile replaced.
pub open spec fn updated(before: Beneficiary, params: UpdateBeneficiaryParams) -> Beneficiary {
    Beneficiary {
        name: given_or(params.name, before.name),
        phone_number: given_or(params.phone_number, before.phone_number),
        location: given_or(params.location, before.location),
        family_size: given_or(params.family_size, before.family_size),
        damage_severity: given_or(params.damage_severity, before.damage_severity),
        age: given_or(params.age, before.age),
        gender: given_or(params.gender, before.gender),
        occupation: given_or(params.occupation, before.occupation),
        ipfs_document_hash: given_or(params.ipfs_document_hash, before.ipfs_document_hash),
        damage_description: given_or(params.damage_description, before.damage_description),
        special_needs: given_or(params.special_needs, before.special_needs),
        ..before
    }
}

/// Checks the location of an update, where one is given.
fn location_acceptable(location: &Option<Location>) -> (ok: bool)
    ensures
        ok == !(*location is Some && !location->0.coordinates_valid()),
{
    match location {
        Some(place) => place.has_valid_latitude() && place.has_valid_longitude(),
        None => true,
    }
}

/// Edits a beneficiary's profile. Refused as `update_refusal` says, and then
/// the record stays as it is; otherwise the record is as `updated` says. The
/// weight of a registration that exists already does not follow such an edit.
pub fn update_beneficiary_handler(
    beneficiary: &mut Beneficiary,
    field_worker: &FieldWorker,
    field_worker_authority: &Address,
    params: UpdateBeneficiaryParams,
) -> (res: Result<(), ErrorCode>)
    ensures
        res == match update_refusal(
            *old(beneficiary),
            *field_worker,
            *field_worker_authority,
            params,
        ) {
            Some(refusal) => Err::<(), ErrorCode>(refusal),
            None => Ok(()),
        },
        res is Err ==> *final(beneficiary) == *old(beneficiary),
        res is Ok ==> *final(beneficiary) == updated(*old(beneficiary), params),
        old(beneficiary).well_formed() ==> final(beneficiary).well_formed(),
{
    if !beneficiary.registered_by.same_as(field_worker_authority)
        || !field_worker.authority.same_as(field_worker_authority) {
        return Err(ErrorCode::UnauthorizedFieldWorker);
    }
    if !field_worker.is_active {
        return Err(ErrorCode::FieldWorkerNotActive);
    }
    match beneficiary.verification_status {
        VerificationStatus::Flagged => {
            return Err(ErrorCode::BeneficiaryFlagged);
        },
        _ => {},
    }
    if !option_fits(&params.name, Beneficiary::MAX_NAME_LEN) || !option_fits(
        &params.phone_number,
        Beneficiary::MAX_PHONE_LEN,
    ) {
        return Err(ErrorCode::StringTooLong);
    }
    if !location_acceptable(&params.location) {
        return Err(ErrorCode::InvalidLocationCoordinates);
    }
    if let Some(size) = params.family_size {
        if size < Beneficiary::MIN_FAMILY_SIZE || size > Beneficiary::MAX_FAMILY_SIZE {
            return Err(ErrorCode::InvalidFamilySize);
        }
    }
    if let Some(severity) = params.damage_severity {
        if severity < Beneficiary::MIN_DAMAGE_SEVERITY || severity
            > Beneficiary::MAX_DAMAGE_SEVERITY {
            return Err(ErrorCode::InvalidDamageSeverity);
        }
    }
    if let Some(age) = params.age {
        if age > Beneficiary::MAX_AGE {
            return Err(ErrorCode::InvalidAge);
        }
    }
    if !option_fits(&params.gender, Beneficiary::MAX_GENDER_LEN) || !option_fits(
        &params.occupation,
        Beneficiary::MAX_OCCUPATION_LEN,
    ) || !option_fits(&params.ipfs_document_hash, Beneficiary::MAX_IPFS_HASH_LEN) || !option_fits(
        &params.damage_description,
        Beneficiary::MAX_DAMAGE_DESC_LEN,
    ) || !option_fits(&params.special_needs, Beneficiary::MAX_SPECIAL_NEEDS_LEN) {
        return Err(ErrorCode::StringTooLong);
    }
    set_if_given(&mut beneficiary.name, params.name);
    set_if_given(&mut beneficiary.phone_number, params.phone_number);
    set_if_given(&mut beneficiary.location, params.location);
    set_if_given(&mut beneficiary.family_size, params.family_size);
    set_if_given(&mut beneficiary.damage_severity, params.damage_severity);
    set_if_given(&mut beneficiary.age, params.age);
    set_if_given(&mut beneficiary.gender, params.gender);
    set_if_given(&mut beneficiary.occupation, params.occupation);
    set_if_given(&mut beneficiary.ipfs_document_hash, params.ipfs_document_hash);
    set_if_given(&mut beneficiary.damage_description, params.damage_description);
    set_if_given(&mut beneficiary.special_needs, params.special_needs);
    Ok(())
}

} // verus!
