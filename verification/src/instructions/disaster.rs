use crate::address::Address;
use crate::errors::ErrorCode;
use crate::program_address::{find_ngo_record_address, ngo_record_address};
use crate::state::disaster::DisasterEvent;
use crate::state::enums::DisasterType;
use crate::state::location::Location;
use crate::state::ngo::NGO;
use crate::state::platform_config::PlatformConfig;
use crate::state::token_account::RecordInfo;
use crate::text::{
    all_fit, byte_len, count_up, counted_up, each_fits, fits, fits_if_given, given_or, option_fits,
    set_if_given, text_len,
};
use vstd::prelude::*;

verus! {

/// What is handed in to declare a disaster.
#[derive(Clone, Debug, PartialEq, Eq)]
pub struct InitializeDisasterParams {
    pub event_id: String,
    pub name: String,
    pub event_type: DisasterType,
    pub location: Location,
    pub severity: u8,
    pub affected_areas: Vec<String>,
    pub description: String,
    pub estimated_affected_population: u32,
}

/// The fields of a disaster that are to change; `None` leaves a field as it
/// is.
#[derive(Clone, Debug, PartialEq, Eq)]
pub struct UpdateDisasterParams {
    pub name: Option<String>,
    pub severity: Option<u8>,
    pub is_active: Option<bool>,
    pub affected_areas: Option<Vec<String>>,
    pub description: Option<String>,
    pub estimated_affected_population: Option<u32>,
}

/// Whether the texts of a location are as a disaster needs them: country,
/// region and city given, and all four within their limits.
pub open spec fn place_named(location: Location) -> bool {
    &&& 0 < location.country@.len() && byte_len(location.country@) <= Location::MAX_COUNTRY_LEN
    &&& 0 < location.region@.len() && byte_len(location.region@) <= Location::MAX_REGION_LEN
    &&& 0 < location.city@.len() && byte_len(location.city@) <= Location::MAX_CITY_LEN
    &&& byte_len(location.area@) <= Location::MAX_AREA_LEN
}

/// Whether a severity is one that a disaster can have: 1 to 10.
pub open spec fn severity_valid(severity: u8) -> bool {
    DisasterEvent::MIN_SEVERITY <= severity <= DisasterEvent::MAX_SEVERITY
}

/// Whether an organisation may declare disasters: verified, active and not
/// blacklisted.
pub open spec fn may_declare(ngo: NGO) -> bool {
    ngo.is_verified && ngo.in_good_standing()
}

/// Why the caller may not declare a disaster, if it may not.
///
/// The administrator always may. Anyone else must hand in the record of its
/// own organisation: the one at the address with the bytes `ngo_record`, kept
/// by this program, of an organisation that may declare disasters. Where no
/// such address can be derived, `ngo_record` is `None`.
pub open spec fn creator_refusal(
    config: PlatformConfig,
    authority: Address,
    ngo_record: Option<Seq<u8>>,
    program_id: Address,
    account: Option<RecordInfo>,
    ngo: Option<NGO>,
) -> Option<ErrorCode> {
    if config.admin@ == authority@ {
        None
    } else if ngo_record is None {
        Some(ErrorCode::PDADerivationFailed)
    } else if account is None || account->0.key@ != ngo_record->0 {
        Some(ErrorCode::UnauthorizedDisasterCreation)
    } else if account->0.owner@ != program_id@ {
        Some(ErrorCode::UnauthorizedDisasterCreation)
    } else if ngo is None {
        Some(ErrorCode::AccountNotInitialized)
    } else if !may_declare(ngo->0) {
        Some(ErrorCode::UnauthorizedDisasterCreation)
    } else {
        None
    }
}

/// Why what is handed in to declare a disaster is not acceptable, if it is
/// not: texts within their limits, severity in range, no more areas than may
/// be and each name of one within its limit, the place named, and the
/// coordinates on the globe.
pub open spec fn declaration_refusal(params: InitializeDisasterParams) -> Option<ErrorCode> {
    if byte_len(params.event_id@) > DisasterEvent::MAX_EVENT_ID_LEN || byte_len(params.name@)
        > DisasterEvent::MAX_NAME_LEN || byte_len(params.description@)
        > DisasterEvent::MAX_DESCRIPTION_LEN {
        Some(ErrorCode::StringTooLong)
    } else if !severity_valid(params.severity) {
        Some(ErrorCode::InvalidDisasterSeverity)
    } else if params.affected_areas@.len() > DisasterEvent::MAX_AFFECTED_AREAS {
        Some(ErrorCode::VectorTooLong)
    } else if !each_fits(params.affected_areas@, DisasterEvent::MAX_AREA_NAME_LEN) {
        Some(ErrorCode::StringTooLong)
    } else if !place_named(params.location) {
        Some(ErrorCode::InvalidLocationData)
    } else if !params.location.coordinates_valid() {
        Some(ErrorCode::InvalidLocationCoordinates)
    } else {
        None
    }
}

/// Why declaring a disaster is refused, if it is: the platform must not be
/// paused, the caller be allowed as `creator_refusal` says, and what is
/// handed in acceptable as `declaration_refusal` says.
pub open spec fn disaster_refusal(
    params: InitializeDisasterParams,
    config: PlatformConfig,
    authority: Address,
    ngo_record: Option<Seq<u8>>,
    program_id: Address,
    account: Option<RecordInfo>,
    ngo: Option<NGO>,
) -> Option<ErrorCode> {
    if config.is_paused {
        Some(ErrorCode::PlatformPaused)
    } else if creator_refusal(config, authority, ngo_record, program_id, account, ngo) is Some {
        creator_refusal(config, authority, ngo_record, program_id, account, ngo)
    } else {
        declaration_refusal(params)
    }
}

/// The record that declaring a disaster writes: active, with all counters at
/// zero.
pub open spec fn new_disaster(
    params: InitializeDisasterParams,
    authority: Address,
    bump: u8,
    now: i64,
) -> DisasterEvent {
    DisasterEvent {
        event_id: params.event_id,
        name: params.name,
        event_type: params.event_type,
        declared_at: now,
        location: params.location,
        severity: params.severity,
        is_active: true,
        authority,
        affected_areas: params.affected_areas,
        description: params.description,
        estimated_affected_population: params.estimated_affected_population,
        total_beneficiaries: 0,
        verified_beneficiaries: 0,
        total_aid_distributed: 0,
        created_at: now,
        updated_at: now,
        bump,
    }
}

/// The bytes of an optional address.
pub open spec fn bytes_of(address: Option<Address>) -> Option<Seq<u8>> {
    match address {
        Some(key) => Some(key@),
        None => None,
    }
}

/// Decides whether the caller may declare a disaster.
fn check_creator(
    config: &PlatformConfig,
    authority: &Address,
    ngo_record: &Option<Address>,
    program_id: &Address,
    account: &Option<RecordInfo>,
    ngo: &Option<NGO>,
) -> (res: Result<(), ErrorCode>)
    ensures
        res == match creator_refusal(
            *config,
            *authority,
            bytes_of(*ngo_record),
            *program_id,
            *account,
            *ngo,
        ) {
            Some(refusal) => Err::<(), ErrorCode>(refusal),
            None => Ok(()),
        },
{
    if config.admin.same_as(authority) {
        return Ok(());
    }
    let expected = match ngo_record {
        Some(expected) => expected,
        None => {
            return Err(ErrorCode::PDADerivationFailed);
        },
    };
    match account {
        None => {
            return Err(ErrorCode::UnauthorizedDisasterCreation);
        },
        Some(info) => {
            if !info.key.same_as(expected) || !info.owner.same_as(program_id) {
                return Err(ErrorCode::UnauthorizedDisasterCreation);
            }
        },
    }
    match ngo {
        None => Err(ErrorCode::AccountNotInitialized),
        Some(record) => {
            if record.is_verified && record.is_active && !record.is_blacklisted {
                Ok(())
            } else {
                Err(ErrorCode::UnauthorizedDisasterCreation)
            }
        },
    }
}

/// Decides whether the texts of a location are as a disaster needs them.
fn place_is_named(location: &Location) -> (ok: bool)
    ensures
        ok == place_named(*location),
{
    !location.country.as_str().is_empty() && text_len(&location.country)
        <= Location::MAX_COUNTRY_LEN && !location.region.as_str().is_empty() && text_len(
        &location.region,
    ) <= Location::MAX_REGION_LEN && !location.city.as_str().is_empty() && text_len(
        &location.city,
    ) <= Location::MAX_CITY_LEN && text_len(&location.area) <= Location::MAX_AREA_LEN
}

/// Checks what is handed in to declare a disaster.
fn check_declaration(params: &InitializeDisasterParams) -> (res: Result<(), ErrorCode>)
    ensures
        res == match declaration_refusal(*params) {
            Some(refusal) => Err::<(), ErrorCode>(refusal),
            None => Ok(()),
        },
{
    if !fits(&params.event_id, DisasterEvent::MAX_EVENT_ID_LEN) || !fits(
        &params.name,
        DisasterEvent::MAX_NAME_LEN,
    ) || !fits(&params.description, DisasterEvent::MAX_DESCRIPTION_LEN) {
        return Err(ErrorCode::StringTooLong);
    }
    if params.severity < DisasterEvent::MIN_SEVERITY || params.severity
        > DisasterEvent::MAX_SEVERITY {
        return Err(ErrorCode::InvalidDisasterSeverity);
    }
    if params.affected_areas.len() > DisasterEvent::MAX_AFFECTED_AREAS {
        return Err(ErrorCode::VectorTooLong);
    }
    if !all_fit(&params.affected_areas, DisasterEvent::MAX_AREA_NAME_LEN) {
        return Err(ErrorCode::StringTooLong);
    }
    if !place_is_named(&params.location) {
        return Err(ErrorCode::InvalidLocationData);
    }
    if !params.location.has_valid_latitude() || !params.location.has_valid_longitude() {
        return Err(ErrorCode::InvalidLocationCoordinates);
    }
    Ok(())
}

/// Declares a disaster, given the address `ngo_record` at which the record of
/// the caller's organisation is kept, if one can be derived, and returns the
/// disaster's record.
///
/// `account` is the record that was handed in beside the call, if one was,
/// and `ngo` what is stored there, if that is an organisation's record.
/// Refused as `disaster_refusal` says, and then nothing changes. Otherwise the
/// record is `new_disaster`, and the platform's count of disasters goes up.
pub fn open_disaster(
    config: &mut PlatformConfig,
    params: InitializeDisasterParams,
    authority: &Address,
    ngo_record: &Option<Address>,
    program_id: &Address,
    account: &Option<RecordInfo>,
    ngo: &Option<NGO>,
    bump: u8,
    now: i64,
) -> (res: Result<DisasterEvent, ErrorCode>)
    ensures
        res == match disaster_refusal(
            params,
            *old(config),
            *authority,
            bytes_of(*ngo_record),
            *program_id,
            *account,
            *ngo,
        ) {
            Some(refusal) => Err::<DisasterEvent, ErrorCode>(refusal),
            None => Ok(new_disaster(params, *authority, bump, now)),
        },
        res is Err ==> *final(config) == *old(config),
        res is Ok ==> *final(config) == (PlatformConfig {
            total_disasters: counted_up(old(config).total_disasters),
            updated_at: now,
            ..*old(config)
        }),
{
    if config.is_paused {
        return Err(ErrorCode::PlatformPaused);
    }
    if let Err(refusal) = check_creator(config, authority, ngo_record, program_id, account, ngo) {
        return Err(refusal);
    }
    if let Err(refusal) = check_declaration(&params) {
        return Err(refusal);
    }
    config.total_disasters = count_up(config.total_disasters);
    config.updated_at = now;
    Ok(
        DisasterEvent {
            event_id: params.event_id,
            name: params.name,
            event_type: params.event_type,
            declared_at: now,
            location: params.location,
            severity: params.severity,
            is_active: true,
            authority: *authority,
            affected_areas: params.affected_areas,
            description: params.description,
            estimated_affected_population: params.estimated_affected_population,
            total_beneficiaries: 0,
            verified_beneficiaries: 0,
            total_aid_distributed: 0,
            created_at: now,
            updated_at: now,
            bump,
        },
    )
}

/// Declares a disaster and returns its record.
///
/// The address of the record of the caller's organisation is derived from the
/// caller's own address and `program_id`; all is then as `open_disaster` says
/// for that address.
pub fn handler(
    config: &mut PlatformConfig,
    params: InitializeDisasterParams,
    authority: &Address,
    program_id: &Address,
    account: &Option<RecordInfo>,
    ngo: &Option<NGO>,
    bump: u8,
    now: i64,
) -> (res: Result<DisasterEvent, ErrorCode>)
    ensures
        res == match disaster_refusal(
            params,
            *old(config),
            *authority,
            ngo_record_address(*authority, *program_id),
            *program_id,
            *account,
            *ngo,
        ) {
            Some(refusal) => Err::<DisasterEvent, ErrorCode>(refusal),
            None => Ok(new_disaster(params, *authority, bump, now)),
        },
        res is Err ==> *final(config) == *old(config),
        res is Ok ==> *final(config) == (PlatformConfig {
            total_disasters: counted_up(old(config).total_disasters),
            updated_at: now,
            ..*old(config)
        }),
{
    let ngo_record = find_ngo_record_address(authority, program_id);
    open_disaster(config, params, authority, &ngo_record, program_id, account, ngo, bump, now)
}

/// Why a change of a disaster is refused, if it is: the caller must be the
/// one who declared it, and each field that is given must pass the check that
/// the declaration makes of it.
pub open spec fn disaster_update_refusal(
    disaster: DisasterEvent,
    authority: Address,
    params: UpdateDisasterParams,
) -> Option<ErrorCode> {
    if disaster.authority@ != authority@ {
        Some(ErrorCode::UnauthorizedModification)
    } else if !fits_if_given(params.name, DisasterEvent::MAX_NAME_LEN) {
        Some(ErrorCode::StringTooLong)
    } else if params.severity matches Some(severity) && !severity_valid(severity) {
        Some(ErrorCode::InvalidDisasterSeverity)
    } else if params.affected_areas matches Some(areas) && areas@.len()
        > DisasterEvent::MAX_AFFECTED_AREAS {
        Some(ErrorCode::VectorTooLong)
    } else if params.affected_areas matches Some(areas) && !each_fits(
        areas@,
        DisasterEvent::MAX_AREA_NAME_LEN,
    ) {
        Some(ErrorCode::StringTooLong)
    } else if !fits_if_given(params.description, DisasterEvent::MAX_DESCRIPTION_LEN) {
        Some(ErrorCode::StringTooLong)
    } else {
        None
    }
}

/// A disaster's record with the given fields replaced.
pub open spec fn disaster_updated(
    before: DisasterEvent,
    params: UpdateDisasterParams,
    now: i64,
) -> DisasterEvent {
    DisasterEvent {
        name: given_or(params.name, before.name),
        severity: given_or(params.severity, before.severity),
        is_active: given_or(params.is_active, before.is_active),
        affected_areas: given_or(params.affected_areas, before.affected_areas),
        description: given_or(params.description, before.description),
        estimated_affected_population: given_or(
            params.estimated_affected_population,
            before.estimated_affected_population,
        ),
        updated_at: now,
        ..before
    }
}

/// Checks the list of areas of an update, where one is given.
fn check_areas(areas: &Option<Vec<String>>) -> (res: Result<(), ErrorCode>)
    ensures
        res == if areas matches Some(given) && given@.len() > DisasterEvent::MAX_AFFECTED_AREAS {
            Err::<(), ErrorCode>(ErrorCode::VectorTooLong)
        } else if areas matches Some(given) && !each_fits(
            given@,
            DisasterEvent::MAX_AREA_NAME_LEN,
        ) {
            Err(ErrorCode::StringTooLong)
        } else {
            Ok(())
        },
{
    match areas {
        Some(given) => {
            if given.len() > DisasterEvent::MAX_AFFECTED_AREAS {
                Err(ErrorCode::VectorTooLong)
            } else if !all_fit(given, DisasterEvent::MAX_AREA_NAME_LEN) {
                Err(ErrorCode::StringTooLong)
            } else {
                Ok(())
            }
        },
        None => Ok(()),
    }
}

/// Changes a disaster's record.
pub fn update_disaster_handler(
    disaster: &mut DisasterEvent,
    authority: &Address,
    params: UpdateDisasterParams,
    now: i64,
) -> (res: Result<(), ErrorCode>)
    ensures
        res == match disaster_update_refusal(*old(disaster), *authority, params) {
            Some(refusal) => Err::<(), ErrorCode>(refusal),
            None => Ok(()),
        },
        res is Err ==> *final(disaster) == *old(disaster),
        res is Ok ==> *final(disaster) == disaster_updated(*old(disaster), params, now),
{
    if !disaster.authority.same_as(authority) {
        return Err(ErrorCode::UnauthorizedModification);
    }
    if !option_fits(&params.name, DisasterEvent::MAX_NAME_LEN) {
        return Err(ErrorCode::StringTooLong);
    }
    if let Some(severity) = params.severity {
        if severity < DisasterEvent::MIN_SEVERITY || severity > DisasterEvent::MAX_SEVERITY {
            return Err(ErrorCode::InvalidDisasterSeverity);
        }
    }
    if let Err(refusal) = check_areas(&params.affected_areas) {
        return Err(refusal);
    }
    if !option_fits(&params.description, DisasterEvent::MAX_DESCRIPTION_LEN) {
        return Err(ErrorCode::StringTooLong);
    }
    set_if_given(&mut disaster.name, params.name);
    set_if_given(&mut disaster.severity, params.severity);
    set_if_given(&mut disaster.is_active, params.is_active);
    set_if_given(&mut disaster.affected_areas, params.affected_areas);
    set_if_given(&mut disaster.description, params.description);
    set_if_given(
        &mut disaster.estimated_affected_population,
        params.estimated_affected_population,
    );
    disaster.updated_at = now;
    Ok(())
}

/// Why closing a disaster is refused, if it is: the caller must be the one
/// who declared it, and it must still be active.
pub open spec fn disaster_close_refusal(disaster: DisasterEvent, authority: Address) -> Option<
    ErrorCode,
> {
    if disaster.authority@ != authority@ {
        Some(ErrorCode::UnauthorizedModification)
    } else if !disaster.is_active {
        Some(ErrorCode::DisasterNotActive)
    } else {
        None
    }
}

/// Closes a disaster.
pub fn close_disaster_handler(disaster: &mut DisasterEvent, authority: &Address, now: i64) -> (res:
    Result<(), ErrorCode>)
    ensures
        res == match disaster_close_refusal(*old(disaster), *authority) {
            Some(refusal) => Err::<(), ErrorCode>(refusal),
            None => Ok(()),
        },
        res is Err ==> *final(disaster) == *old(disaster),
        res is Ok ==> *final(disaster) == (DisasterEvent {
            is_active: false,
            updated_at: now,
            ..*old(disaster)
        }),
{
    if !disaster.authority.same_as(authority) {
        return Err(ErrorCode::UnauthorizedModification);
    }
    if !disaster.is_active {
        return Err(ErrorCode::DisasterNotActive);
    }
    disaster.is_active = false;
    disaster.updated_at = now;
    Ok(())
}

} // verus!
