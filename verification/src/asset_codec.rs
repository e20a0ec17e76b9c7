//! The persisted layout of the five asset records, in the same schema as
//! [`crate::codec`]: fixed-width little-endian integers, one-byte tags and
//! booleans, length-prefixed byte strings, and counted lists of byte
//! strings. Records that carry text decode through a model whose text
//! fields are sequences; decoding what encode produced returns the record
//! unchanged, field for field.

use vstd::prelude::*;
use vstd::bytes::{
    spec_u32_to_le_bytes, spec_u64_to_le_bytes,
};
use crate::codec::{
    encode_bool, encode_bytes, encode_i64, encode_text_list, encode_u32, encode_u64, encode_u8,
    lemma_concat_assoc, lemma_take_bool, lemma_take_bytes, lemma_take_i64, lemma_take_text_list,
    lemma_take_u32, lemma_take_u64, lemma_take_u8, read_bool, read_bytes, read_i64, read_text_list,
    read_u32, read_u64, read_u8, spec_bool_to_byte, spec_encode_bytes, spec_encode_text_list,
    spec_i64_to_le_bytes, spec_take_bool, spec_take_bytes, spec_take_i64, spec_take_text_list,
    spec_take_u32, spec_take_u64, spec_take_u8,
};
use crate::constants::{
    MAX_AREA_LEN, MAX_AUTHORITY_TYPE_LEN, MAX_CROP_LEN, MAX_CROP_TYPES, MAX_FARM_NAME_LEN,
    MAX_JURISDICTION_LEN, MAX_LICENSE_LEN, MAX_LOCATION_LEN, MAX_PARTNER_NAME_LEN,
    MAX_POINT_NAME_LEN, MAX_PROVIDER_NAME_LEN, MAX_PROVIDER_TYPE_LEN, MAX_SERVICE_AREAS,
};
use crate::state::{
    AccountId, Farm, HealthcareProvider, LogisticsPartner, TaxCollectionPoint, WiFiHotspot,
};

verus! {

// ---------------------------------------------------------------------
// WiFi hotspots.
// ---------------------------------------------------------------------
/// A hotspot as mathematics: the same fields, text as a byte sequence.
pub ghost struct WiFiHotspotModel {
    pub owner: AccountId,
    pub location: Seq<u8>,
    pub coverage_radius: u32,
    pub bandwidth_mbps: u32,
    pub total_users_served: u32,
    pub total_data_transferred: u64,
    pub total_rewards_earned: u64,
    pub last_data_submission: i64,
    pub is_active: bool,
    pub reputation_score: u8,
}

impl View for WiFiHotspot {
    type V = WiFiHotspotModel;

    open spec fn view(&self) -> WiFiHotspotModel {
        WiFiHotspotModel {
            owner: self.owner,
            location: self.location@,
            coverage_radius: self.coverage_radius,
            bandwidth_mbps: self.bandwidth_mbps,
            total_users_served: self.total_users_served,
            total_data_transferred: self.total_data_transferred,
            total_rewards_earned: self.total_rewards_earned,
            last_data_submission: self.last_data_submission,
            is_active: self.is_active,
            reputation_score: self.reputation_score,
        }
    }
}

/// The byte image of a hotspot's identity and radio parameters.
pub open spec fn spec_encode_hotspot_head(m: WiFiHotspotModel) -> Seq<u8> {
    spec_u64_to_le_bytes(m.owner.id) + (spec_encode_bytes(m.location) + (spec_u32_to_le_bytes(
        m.coverage_radius,
    ) + spec_u32_to_le_bytes(m.bandwidth_mbps)))
}

/// The byte image of a hotspot's usage totals.
pub open spec fn spec_encode_hotspot_mid(m: WiFiHotspotModel) -> Seq<u8> {
    spec_u32_to_le_bytes(m.total_users_served) + (spec_u64_to_le_bytes(m.total_data_transferred)
        + spec_u64_to_le_bytes(m.total_rewards_earned))
}

/// The byte image of a hotspot's clock, flag and standing.
pub open spec fn spec_encode_hotspot_tail(m: WiFiHotspotModel) -> Seq<u8> {
    spec_i64_to_le_bytes(m.last_data_submission) + (seq![spec_bool_to_byte(m.is_active)] + seq![
        m.reputation_score,
    ])
}

/// The byte image of a hotspot.
pub open spec fn spec_encode_wifi_hotspot(m: WiFiHotspotModel) -> Seq<u8> {
    spec_encode_hotspot_head(m) + (spec_encode_hotspot_mid(m) + spec_encode_hotspot_tail(m))
}

/// Read a hotspot's identity and radio parameters from the front.
pub open spec fn spec_take_hotspot_head(s: Seq<u8>) -> Option<((u64, Seq<u8>, u32, u32), Seq<u8>)> {
    match spec_take_u64(s) {
        None => None,
        Some((owner_id, s)) => match spec_take_bytes(s, MAX_LOCATION_LEN as int) {
            None => None,
            Some((location, s)) => match spec_take_u32(s) {
                None => None,
                Some((coverage_radius, s)) => match spec_take_u32(s) {
                    None => None,
                    Some((bandwidth_mbps, s)) => Some(
                        ((owner_id, location, coverage_radius, bandwidth_mbps), s),
                    ),
                },
            },
        },
    }
}

/// Read a hotspot's usage totals from the front.
pub open spec fn spec_take_hotspot_mid(s: Seq<u8>) -> Option<((u32, u64, u64), Seq<u8>)> {
    match spec_take_u32(s) {
        None => None,
        Some((total_users_served, s)) => match spec_take_u64(s) {
            None => None,
            Some((total_data_transferred, s)) => match spec_take_u64(s) {
                None => None,
                Some((total_rewards_earned, s)) => Some(
                    ((total_users_served, total_data_transferred, total_rewards_earned), s),
                ),
            },
        },
    }
}

/// Read a hotspot's clock, flag and standing from the front.
pub open spec fn spec_take_hotspot_tail(s: Seq<u8>) -> Option<((i64, bool, u8), Seq<u8>)> {
    match spec_take_i64(s) {
        None => None,
        Some((last_data_submission, s)) => match spec_take_bool(s) {
            None => None,
            Some((is_active, s)) => match spec_take_u8(s) {
                None => None,
                Some((reputation_score, s)) => Some(
                    ((last_data_submission, is_active, reputation_score), s),
                ),
            },
        },
    }
}

/// Read a hotspot from the front; oversize text is malformed.
pub open spec fn spec_take_wifi_hotspot(s: Seq<u8>) -> Option<(WiFiHotspotModel, Seq<u8>)> {
    match spec_take_hotspot_head(s) {
        None => None,
        Some((head, s)) => match spec_take_hotspot_mid(s) {
            None => None,
            Some((mid, s)) => match spec_take_hotspot_tail(s) {
                None => None,
                Some((tail, s)) => Some(
                    (
                        WiFiHotspotModel {
                            owner: AccountId { id: head.0 },
                            location: head.1,
                            coverage_radius: head.2,
                            bandwidth_mbps: head.3,
                            total_users_served: mid.0,
                            total_data_transferred: mid.1,
                            total_rewards_earned: mid.2,
                            last_data_submission: tail.0,
                            is_active: tail.1,
                            reputation_score: tail.2,
                        },
                        s,
                    ),
                ),
            },
        },
    }
}

/// Append a well-formed hotspot's byte image.
pub fn encode_wifi_hotspot(out: &mut Vec<u8>, r: &WiFiHotspot)
    requires
        r.wf(),
    ensures
        final(out)@ == old(out)@ + spec_encode_wifi_hotspot(r@),
{
    encode_u64(out, r.owner.id);
    encode_bytes(out, &r.location);
    encode_u32(out, r.coverage_radius);
    encode_u32(out, r.bandwidth_mbps);
    encode_u32(out, r.total_users_served);
    encode_u64(out, r.total_data_transferred);
    encode_u64(out, r.total_rewards_earned);
    encode_i64(out, r.last_data_submission);
    encode_bool(out, r.is_active);
    encode_u8(out, r.reputation_score);
    assert(final(out)@ =~= old(out)@ + spec_encode_wifi_hotspot(r@));
}

/// Read a hotspot at the cursor. A decoded hotspot is well-formed.
pub fn decode_wifi_hotspot(buf: &[u8], pos: usize) -> (r: Option<(WiFiHotspot, usize)>)
    ensures
        match r {
            Some((v, end)) => {
                &&& pos <= end <= buf@.len()
                &&& spec_take_wifi_hotspot(buf@.skip(pos as int)) == Some(
                    (v@, buf@.skip(end as int)),
                )
                &&& v.wf()
            },
            None => pos > buf@.len() || spec_take_wifi_hotspot(buf@.skip(pos as int)) is None,
        },
{
    let (owner_id, pos) = match read_u64(buf, pos) {
        Some(v) => v,
        None => {
            return None;
        },
    };
    let (location, pos) = match read_bytes(buf, pos, MAX_LOCATION_LEN) {
        Some(v) => v,
        None => {
            return None;
        },
    };
    let (coverage_radius, pos) = match read_u32(buf, pos) {
        Some(v) => v,
        None => {
            return None;
        },
    };
    let (bandwidth_mbps, pos) = match read_u32(buf, pos) {
        Some(v) => v,
        None => {
            return None;
        },
    };
    let (total_users_served, pos) = match read_u32(buf, pos) {
        Some(v) => v,
        None => {
            return None;
        },
    };
    let (total_data_transferred, pos) = match read_u64(buf, pos) {
        Some(v) => v,
        None => {
            return None;
        },
    };
    let (total_rewards_earned, pos) = match read_u64(buf, pos) {
        Some(v) => v,
        None => {
            return None;
        },
    };
    let (last_data_submission, pos) = match read_i64(buf, pos) {
        Some(v) => v,
        None => {
            return None;
        },
    };
    let (is_active, pos) = match read_bool(buf, pos) {
        Some(v) => v,
        None => {
            return None;
        },
    };
    let (reputation_score, pos) = match read_u8(buf, pos) {
        Some(v) => v,
        None => {
            return None;
        },
    };
    Some(
        (
            WiFiHotspot {
                owner: AccountId { id: owner_id },
                location,
                coverage_radius,
                bandwidth_mbps,
                total_users_served,
                total_data_transferred,
                total_rewards_earned,
                last_data_submission,
                is_active,
                reputation_score,
            },
            pos,
        ),
    )
}

proof fn lemma_take_hotspot_head(m: WiFiHotspotModel, rest: Seq<u8>)
    requires
        m.location.len() <= MAX_LOCATION_LEN,
    ensures
        spec_take_hotspot_head(spec_encode_hotspot_head(m) + rest) == Some(
            ((m.owner.id, m.location, m.coverage_radius, m.bandwidth_mbps), rest),
        ),
{
    let e1 = spec_u64_to_le_bytes(m.owner.id);
    let e2 = spec_encode_bytes(m.location);
    let e3 = spec_u32_to_le_bytes(m.coverage_radius);
    let e4 = spec_u32_to_le_bytes(m.bandwidth_mbps);
    lemma_concat_assoc(e1, e2 + (e3 + e4), rest);
    lemma_take_u64(m.owner.id, (e2 + (e3 + e4)) + rest);
    lemma_concat_assoc(e2, e3 + e4, rest);
    lemma_take_bytes(m.location, (e3 + e4) + rest, MAX_LOCATION_LEN as int);
    lemma_concat_assoc(e3, e4, rest);
    lemma_take_u32(m.coverage_radius, e4 + rest);
    lemma_take_u32(m.bandwidth_mbps, rest);
}

proof fn lemma_take_hotspot_mid(m: WiFiHotspotModel, rest: Seq<u8>)
    ensures
        spec_take_hotspot_mid(spec_encode_hotspot_mid(m) + rest) == Some(
            ((m.total_users_served, m.total_data_transferred, m.total_rewards_earned), rest),
        ),
{
    let e1 = spec_u32_to_le_bytes(m.total_users_served);
    let e2 = spec_u64_to_le_bytes(m.total_data_transferred);
    let e3 = spec_u64_to_le_bytes(m.total_rewards_earned);
    lemma_concat_assoc(e1, e2 + e3, rest);
    lemma_take_u32(m.total_users_served, (e2 + e3) + rest);
    lemma_concat_assoc(e2, e3, rest);
    lemma_take_u64(m.total_data_transferred, e3 + rest);
    lemma_take_u64(m.total_rewards_earned, rest);
}

proof fn lemma_take_hotspot_tail(m: WiFiHotspotModel, rest: Seq<u8>)
    ensures
        spec_take_hotspot_tail(spec_encode_hotspot_tail(m) + rest) == Some(
            ((m.last_data_submission, m.is_active, m.reputation_score), rest),
        ),
{
    let e1 = spec_i64_to_le_bytes(m.last_data_submission);
    let e2 = seq![spec_bool_to_byte(m.is_active)];
    let e3 = seq![m.reputation_score];
    lemma_concat_assoc(e1, e2 + e3, rest);
    lemma_take_i64(m.last_data_submission, (e2 + e3) + rest);
    lemma_concat_assoc(e2, e3, rest);
    lemma_take_bool(m.is_active, e3 + rest);
    lemma_take_u8(m.reputation_score, rest);
}

/// Round trip: reading a stream that starts with a well-formed hotspot's
/// byte image yields that hotspot, every field preserved, and the rest
/// untouched.
pub proof fn lemma_wifi_hotspot_roundtrip(m: WiFiHotspotModel, rest: Seq<u8>)
    requires
        m.location.len() <= MAX_LOCATION_LEN,
    ensures
        spec_take_wifi_hotspot(spec_encode_wifi_hotspot(m) + rest) == Some((m, rest)),
{
    let head = spec_encode_hotspot_head(m);
    let mid = spec_encode_hotspot_mid(m);
    let tail = spec_encode_hotspot_tail(m);
    lemma_concat_assoc(head, mid + tail, rest);
    lemma_take_hotspot_head(m, (mid + tail) + rest);
    lemma_concat_assoc(mid, tail, rest);
    lemma_take_hotspot_mid(m, tail + rest);
    lemma_take_hotspot_tail(m, rest);
}

// ---------------------------------------------------------------------
// Healthcare providers.
// ---------------------------------------------------------------------
/// A provider as mathematics: the same fields, text as byte sequences.
pub ghost struct HealthcareProviderModel {
    pub owner: AccountId,
    pub provider_name: Seq<u8>,
    pub provider_type: Seq<u8>,
    pub location: Seq<u8>,
    pub license_number: Seq<u8>,
    pub total_data_submissions: u32,
    pub total_records_collected: u32,
    pub total_rewards_earned: u64,
    pub last_data_submission: i64,
    pub is_active: bool,
    pub compliance_score: u8,
}

impl View for HealthcareProvider {
    type V = HealthcareProviderModel;

    open spec fn view(&self) -> HealthcareProviderModel {
        HealthcareProviderModel {
            owner: self.owner,
            provider_name: self.provider_name@,
            provider_type: self.provider_type@,
            location: self.location@,
            license_number: self.license_number@,
            total_data_submissions: self.total_data_submissions,
            total_records_collected: self.total_records_collected,
            total_rewards_earned: self.total_rewards_earned,
            last_data_submission: self.last_data_submission,
            is_active: self.is_active,
            compliance_score: self.compliance_score,
        }
    }
}

/// The byte image of a provider's identity and text.
pub open spec fn spec_encode_provider_head(m: HealthcareProviderModel) -> Seq<u8> {
    spec_u64_to_le_bytes(m.owner.id) + (spec_encode_bytes(m.provider_name) + (spec_encode_bytes(
        m.provider_type,
    ) + (spec_encode_bytes(m.location) + spec_encode_bytes(m.license_number))))
}

/// The byte image of a provider's totals, clock, flag and standing.
pub open spec fn spec_encode_provider_tail(m: HealthcareProviderModel) -> Seq<u8> {
    spec_u32_to_le_bytes(m.total_data_submissions) + (spec_u32_to_le_bytes(
        m.total_records_collected,
    ) + (spec_u64_to_le_bytes(m.total_rewards_earned) + (spec_i64_to_le_bytes(
        m.last_data_submission,
    ) + (seq![spec_bool_to_byte(m.is_active)] + seq![m.compliance_score]))))
}

/// The byte image of a provider.
pub open spec fn spec_encode_healthcare_provider(m: HealthcareProviderModel) -> Seq<u8> {
    spec_encode_provider_head(m) + spec_encode_provider_tail(m)
}

/// Read a provider's identity and text from the front.
pub open spec fn spec_take_provider_head(s: Seq<u8>) -> Option<
    ((u64, Seq<u8>, Seq<u8>, Seq<u8>, Seq<u8>), Seq<u8>),
> {
    match spec_take_u64(s) {
        None => None,
        Some((owner_id, s)) => match spec_take_bytes(s, MAX_PROVIDER_NAME_LEN as int) {
            None => None,
            Some((provider_name, s)) => match spec_take_bytes(s, MAX_PROVIDER_TYPE_LEN as int) {
                None => None,
                Some((provider_type, s)) => match spec_take_bytes(s, MAX_LOCATION_LEN as int) {
                    None => None,
                    Some((location, s)) => match spec_take_bytes(s, MAX_LICENSE_LEN as int) {
                        None => None,
                        Some((license_number, s)) => Some(
                            ((owner_id, provider_name, provider_type, location, license_number), s),
                        ),
                    },
                },
            },
        },
    }
}

/// Read a provider's totals, clock, flag and standing from the front.
pub open spec fn spec_take_provider_tail(s: Seq<u8>) -> Option<
    ((u32, u32, u64, i64, bool, u8), Seq<u8>),
> {
    match spec_take_u32(s) {
        None => None,
        Some((total_data_submissions, s)) => match spec_take_u32(s) {
            None => None,
            Some((total_records_collected, s)) => match spec_take_u64(s) {
                None => None,
                Some((total_rewards_earned, s)) => match spec_take_i64(s) {
                    None => None,
                    Some((last_data_submission, s)) => match spec_take_bool(s) {
                        None => None,
                        Some((is_active, s)) => match spec_take_u8(s) {
                            None => None,
                            Some((compliance_score, s)) => Some(
                                (
                                    (
                                        total_data_submissions,
                                        total_records_collected,
                                        total_rewards_earned,
                                        last_data_submission,
                                        is_active,
                                        compliance_score,
                                    ),
                                    s,
                                ),
                            ),
                        },
                    },
                },
            },
        },
    }
}

/// Read a provider from the front; oversize text is malformed.
pub open spec fn spec_take_healthcare_provider(s: Seq<u8>) -> Option<
    (HealthcareProviderModel, Seq<u8>),
> {
    match spec_take_provider_head(s) {
        None => None,
        Some((head, s)) => match spec_take_provider_tail(s) {
            None => None,
            Some((tail, s)) => Some(
                (
                    HealthcareProviderModel {
                        owner: AccountId { id: head.0 },
                        provider_name: head.1,
                        provider_type: head.2,
                        location: head.3,
                        license_number: head.4,
                        total_data_submissions: tail.0,
                        total_records_collected: tail.1,
                        total_rewards_earned: tail.2,
                        last_data_submission: tail.3,
                        is_active: tail.4,
                        compliance_score: tail.5,
                    },
                    s,
                ),
            ),
        },
    }
}

/// Append a well-formed provider's byte image.
pub fn encode_healthcare_provider(out: &mut Vec<u8>, r: &HealthcareProvider)
    requires
        r.wf(),
    ensures
        final(out)@ == old(out)@ + spec_encode_healthcare_provider(r@),
{
    encode_u64(out, r.owner.id);
    encode_bytes(out, &r.provider_name);
    encode_bytes(out, &r.provider_type);
    encode_bytes(out, &r.location);
    encode_bytes(out, &r.license_number);
    encode_u32(out, r.total_data_submissions);
    encode_u32(out, r.total_records_collected);
    encode_u64(out, r.total_rewards_earned);
    encode_i64(out, r.last_data_submission);
    encode_bool(out, r.is_active);
    encode_u8(out, r.compliance_score);
    assert(final(out)@ =~= old(out)@ + spec_encode_healthcare_provider(r@));
}

/// Read a provider at the cursor. A decoded provider is well-formed.
pub fn decode_healthcare_provider(buf: &[u8], pos: usize) -> (r: Option<
    (HealthcareProvider, usize),
>)
    ensures
        match r {
            Some((v, end)) => {
                &&& pos <= end <= buf@.len()
                &&& spec_take_healthcare_provider(buf@.skip(pos as int)) == Some(
                    (v@, buf@.skip(end as int)),
                )
                &&& v.wf()
            },
            None => pos > buf@.len() || spec_take_healthcare_provider(
                buf@.skip(pos as int),
            ) is None,
        },
{
    let (owner_id, pos) = match read_u64(buf, pos) {
        Some(v) => v,
        None => {
            return None;
        },
    };
    let (provider_name, pos) = match read_bytes(buf, pos, MAX_PROVIDER_NAME_LEN) {
        Some(v) => v,
        None => {
            return None;
        },
    };
    let (provider_type, pos) = match read_bytes(buf, pos, MAX_PROVIDER_TYPE_LEN) {
        Some(v) => v,
        None => {
            return None;
        },
    };
    let (location, pos) = match read_bytes(buf, pos, MAX_LOCATION_LEN) {
        Some(v) => v,
        None => {
            return None;
        },
    };
    let (license_number, pos) = match read_bytes(buf, pos, MAX_LICENSE_LEN) {
        Some(v) => v,
        None => {
            return None;
        },
    };
    let (total_data_submissions, pos) = match read_u32(buf, pos) {
        Some(v) => v,
        None => {
            return None;
        },
    };
    let (total_records_collected, pos) = match read_u32(buf, pos) {
        Some(v) => v,
        None => {
            return None;
        },
    };
    let (total_rewards_earned, pos) = match read_u64(buf, pos) {
        Some(v) => v,
        None => {
            return None;
        },
    };
    let (last_data_submission, pos) = match read_i64(buf, pos) {
        Some(v) => v,
        None => {
            return None;
        },
    };
    let (is_active, pos) = match read_bool(buf, pos) {
        Some(v) => v,
        None => {
            return None;
        },
    };
    let (compliance_score, pos) = match read_u8(buf, pos) {
        Some(v) => v,
        None => {
            return None;
        },
    };
    Some(
        (
            HealthcareProvider {
                owner: AccountId { id: owner_id },
                provider_name,
                provider_type,
                location,
                license_number,
                total_data_submissions,
                total_records_collected,
                total_rewards_earned,
                last_data_submission,
                is_active,
                compliance_score,
            },
            pos,
        ),
    )
}

proof fn lemma_take_provider_head(m: HealthcareProviderModel, rest: Seq<u8>)
    requires
        m.provider_name.len() <= MAX_PROVIDER_NAME_LEN,
        m.provider_type.len() <= MAX_PROVIDER_TYPE_LEN,
        m.location.len() <= MAX_LOCATION_LEN,
        m.license_number.len() <= MAX_LICENSE_LEN,
    ensures
        spec_take_provider_head(spec_encode_provider_head(m) + rest) == Some(
            ((m.owner.id, m.provider_name, m.provider_type, m.location, m.license_number), rest),
        ),
{
    let e1 = spec_u64_to_le_bytes(m.owner.id);
    let e2 = spec_encode_bytes(m.provider_name);
    let e3 = spec_encode_bytes(m.provider_type);
    let e4 = spec_encode_bytes(m.location);
    let e5 = spec_encode_bytes(m.license_number);
    lemma_concat_assoc(e1, e2 + (e3 + (e4 + e5)), rest);
    lemma_take_u64(m.owner.id, (e2 + (e3 + (e4 + e5))) + rest);
    lemma_concat_assoc(e2, e3 + (e4 + e5), rest);
    lemma_take_bytes(m.provider_name, (e3 + (e4 + e5)) + rest, MAX_PROVIDER_NAME_LEN as int);
    lemma_concat_assoc(e3, e4 + e5, rest);
    lemma_take_bytes(m.provider_type, (e4 + e5) + rest, MAX_PROVIDER_TYPE_LEN as int);
    lemma_concat_assoc(e4, e5, rest);
    lemma_take_bytes(m.location, e5 + rest, MAX_LOCATION_LEN as int);
    lemma_take_bytes(m.license_number, rest, MAX_LICENSE_LEN as int);
}

proof fn lemma_take_provider_tail(m: HealthcareProviderModel, rest: Seq<u8>)
    ensures
        spec_take_provider_tail(spec_encode_provider_tail(m) + rest) == Some(
            (
                (
                    m.total_data_submissions,
                    m.total_records_collected,
                    m.total_rewards_earned,
                    m.last_data_submission,
                    m.is_active,
                    m.compliance_score,
                ),
                rest,
            ),
        ),
{
    let e1 = spec_u32_to_le_bytes(m.total_data_submissions);
    let e2 = spec_u32_to_le_bytes(m.total_records_collected);
    let e3 = spec_u64_to_le_bytes(m.total_rewards_earned);
    let e4 = spec_i64_to_le_bytes(m.last_data_submission);
    let e5 = seq![spec_bool_to_byte(m.is_active)];
    let e6 = seq![m.compliance_score];
    lemma_concat_assoc(e1, e2 + (e3 + (e4 + (e5 + e6))), rest);
    lemma_take_u32(m.total_data_submissions, (e2 + (e3 + (e4 + (e5 + e6)))) + rest);
    lemma_concat_assoc(e2, e3 + (e4 + (e5 + e6)), rest);
    lemma_take_u32(m.total_records_collected, (e3 + (e4 + (e5 + e6))) + rest);
    lemma_concat_assoc(e3, e4 + (e5 + e6), rest);
    lemma_take_u64(m.total_rewards_earned, (e4 + (e5 + e6)) + rest);
    lemma_concat_assoc(e4, e5 + e6, rest);
    lemma_take_i64(m.last_data_submission, (e5 + e6) + rest);
    lemma_concat_assoc(e5, e6, rest);
    lemma_take_bool(m.is_active, e6 + rest);
    lemma_take_u8(m.compliance_score, rest);
}

/// Round trip: reading a stream that starts with a well-formed provider's
/// byte image yields that provider, every field preserved, and the rest
/// untouched.
pub proof fn lemma_healthcare_provider_roundtrip(m: HealthcareProviderModel, rest: Seq<u8>)
    requires
        m.provider_name.len() <= MAX_PROVIDER_NAME_LEN,
        m.provider_type.len() <= MAX_PROVIDER_TYPE_LEN,
        m.location.len() <= MAX_LOCATION_LEN,
        m.license_number.len() <= MAX_LICENSE_LEN,
    ensures
        spec_take_healthcare_provider(spec_encode_healthcare_provider(m) + rest) == Some((m, rest)),
{
    let head = spec_encode_provider_head(m);
    let tail = spec_encode_provider_tail(m);
    lemma_concat_assoc(head, tail, rest);
    lemma_take_provider_head(m, tail + rest);
    lemma_take_provider_tail(m, rest);
}

// ---------------------------------------------------------------------
// Tax collection points.
// ---------------------------------------------------------------------
/// A collection point as mathematics: the same fields, text as byte
/// sequences.
pub ghost struct TaxCollectionPointModel {
    pub owner: AccountId,
    pub point_name: Seq<u8>,
    pub authority_type: Seq<u8>,
    pub location: Seq<u8>,
    pub jurisdiction: Seq<u8>,
    pub total_records_submitted: u32,
    pub total_amount_processed: u64,
    pub total_rewards_earned: u64,
    pub last_data_submission: i64,
    pub is_active: bool,
    pub verification_score: u8,
}

impl View for TaxCollectionPoint {
    type V = TaxCollectionPointModel;

    open spec fn view(&self) -> TaxCollectionPointModel {
        TaxCollectionPointModel {
            owner: self.owner,
            point_name: self.point_name@,
            authority_type: self.authority_type@,
            location: self.location@,
            jurisdiction: self.jurisdiction@,
            total_records_submitted: self.total_records_submitted,
            total_amount_processed: self.total_amount_processed,
            total_rewards_earned: self.total_rewards_earned,
            last_data_submission: self.last_data_submission,
            is_active: self.is_active,
            verification_score: self.verification_score,
        }
    }
}

/// The byte image of a collection point's identity and text.
pub open spec fn spec_encode_tax_point_head(m: TaxCollectionPointModel) -> Seq<u8> {
    spec_u64_to_le_bytes(m.owner.id) + (spec_encode_bytes(m.point_name) + (spec_encode_bytes(
        m.authority_type,
    ) + (spec_encode_bytes(m.location) + spec_encode_bytes(m.jurisdiction))))
}

/// The byte image of a collection point's totals, clock, flag and
/// standing.
pub open spec fn spec_encode_tax_point_tail(m: TaxCollectionPointModel) -> Seq<u8> {
    spec_u32_to_le_bytes(m.total_records_submitted) + (spec_u64_to_le_bytes(
        m.total_amount_processed,
    ) + (spec_u64_to_le_bytes(m.total_rewards_earned) + (spec_i64_to_le_bytes(
        m.last_data_submission,
    ) + (seq![spec_bool_to_byte(m.is_active)] + seq![m.verification_score]))))
}

/// The byte image of a collection point.
pub open spec fn spec_encode_tax_point(m: TaxCollectionPointModel) -> Seq<u8> {
    spec_encode_tax_point_head(m) + spec_encode_tax_point_tail(m)
}

/// Read a collection point's identity and text from the front.
pub open spec fn spec_take_tax_point_head(s: Seq<u8>) -> Option<
    ((u64, Seq<u8>, Seq<u8>, Seq<u8>, Seq<u8>), Seq<u8>),
> {
    match spec_take_u64(s) {
        None => None,
        Some((owner_id, s)) => match spec_take_bytes(s, MAX_POINT_NAME_LEN as int) {
            None => None,
            Some((point_name, s)) => match spec_take_bytes(s, MAX_AUTHORITY_TYPE_LEN as int) {
                None => None,
                Some((authority_type, s)) => match spec_take_bytes(s, MAX_LOCATION_LEN as int) {
                    None => None,
                    Some((location, s)) => match spec_take_bytes(s, MAX_JURISDICTION_LEN as int) {
                        None => None,
                        Some((jurisdiction, s)) => Some(
                            ((owner_id, point_name, authority_type, location, jurisdiction), s),
                        ),
                    },
                },
            },
        },
    }
}

/// Read a collection point's totals, clock, flag and standing from the
/// front.
pub open spec fn spec_take_tax_point_tail(s: Seq<u8>) -> Option<
    ((u32, u64, u64, i64, bool, u8), Seq<u8>),
> {
    match spec_take_u32(s) {
        None => None,
        Some((total_records_submitted, s)) => match spec_take_u64(s) {
            None => None,
            Some((total_amount_processed, s)) => match spec_take_u64(s) {
                None => None,
                Some((total_rewards_earned, s)) => match spec_take_i64(s) {
                    None => None,
                    Some((last_data_submission, s)) => match spec_take_bool(s) {
                        None => None,
                        Some((is_active, s)) => match spec_take_u8(s) {
                            None => None,
                            Some((verification_score, s)) => Some(
                                (
                                    (
                                        total_records_submitted,
                                        total_amount_processed,
                                        total_rewards_earned,
                                        last_data_submission,
                                        is_active,
                                        verification_score,
                                    ),
                                    s,
                                ),
                            ),
                        },
                    },
                },
            },
        },
    }
}

/// Read a collection point from the front; oversize text is malformed.
pub open spec fn spec_take_tax_point(s: Seq<u8>) -> Option<(TaxCollectionPointModel, Seq<u8>)> {
    match spec_take_tax_point_head(s) {
        None => None,
        Some((head, s)) => match spec_take_tax_point_tail(s) {
            None => None,
            Some((tail, s)) => Some(
                (
                    TaxCollectionPointModel {
                        owner: AccountId { id: head.0 },
                        point_name: head.1,
                        authority_type: head.2,
                        location: head.3,
                        jurisdiction: head.4,
                        total_records_submitted: tail.0,
                        total_amount_processed: tail.1,
                        total_rewards_earned: tail.2,
                        last_data_submission: tail.3,
                        is_active: tail.4,
                        verification_score: tail.5,
                    },
                    s,
                ),
            ),
        },
    }
}

/// Append a well-formed collection point's byte image.
pub fn encode_tax_point(out: &mut Vec<u8>, r: &TaxCollectionPoint)
    requires
        r.wf(),
    ensures
        final(out)@ == old(out)@ + spec_encode_tax_point(r@),
{
    encode_u64(out, r.owner.id);
    encode_bytes(out, &r.point_name);
    encode_bytes(out, &r.authority_type);
    encode_bytes(out, &r.location);
    encode_bytes(out, &r.jurisdiction);
    encode_u32(out, r.total_records_submitted);
    encode_u64(out, r.total_amount_processed);
    encode_u64(out, r.total_rewards_earned);
    encode_i64(out, r.last_data_submission);
    encode_bool(out, r.is_active);
    encode_u8(out, r.verification_score);
    assert(final(out)@ =~= old(out)@ + spec_encode_tax_point(r@));
}

/// Read a collection point at the cursor. A decoded point is well-formed.
pub fn decode_tax_point(buf: &[u8], pos: usize) -> (r: Option<(TaxCollectionPoint, usize)>)
    ensures
        match r {
            Some((v, end)) => {
                &&& pos <= end <= buf@.len()
                &&& spec_take_tax_point(buf@.skip(pos as int)) == Some((v@, buf@.skip(end as int)))
                &&& v.wf()
            },
            None => pos > buf@.len() || spec_take_tax_point(buf@.skip(pos as int)) is None,
        },
{
    let (owner_id, pos) = match read_u64(buf, pos) {
        Some(v) => v,
        None => {
            return None;
        },
    };
    let (point_name, pos) = match read_bytes(buf, pos, MAX_POINT_NAME_LEN) {
        Some(v) => v,
        None => {
            return None;
        },
    };
    let (authority_type, pos) = match read_bytes(buf, pos, MAX_AUTHORITY_TYPE_LEN) {
        Some(v) => v,
        None => {
            return None;
        },
    };
    let (location, pos) = match read_bytes(buf, pos, MAX_LOCATION_LEN) {
        Some(v) => v,
        None => {
            return None;
        },
    };
    let (jurisdiction, pos) = match read_bytes(buf, pos, MAX_JURISDICTION_LEN) {
        Some(v) => v,
        None => {
            return None;
        },
    };
    let (total_records_submitted, pos) = match read_u32(buf, pos) {
        Some(v) => v,
        None => {
            return None;
        },
    };
    let (total_amount_processed, pos) = match read_u64(buf, pos) {
        Some(v) => v,
        None => {
            return None;
        },
    };
    let (total_rewards_earned, pos) = match read_u64(buf, pos) {
        Some(v) => v,
        None => {
            return None;
        },
    };
    let (last_data_submission, pos) = match read_i64(buf, pos) {
        Some(v) => v,
        None => {
            return None;
        },
    };
    let (is_active, pos) = match read_bool(buf, pos) {
        Some(v) => v,
        None => {
            return None;
        },
    };
    let (verification_score, pos) = match read_u8(buf, pos) {
        Some(v) => v,
        None => {
            return None;
        },
    };
    Some(
        (
            TaxCollectionPoint {
                owner: AccountId { id: owner_id },
                point_name,
                authority_type,
                location,
                jurisdiction,
                total_records_submitted,
                total_amount_processed,
                total_rewards_earned,
                last_data_submission,
                is_active,
                verification_score,
            },
            pos,
        ),
    )
}

proof fn lemma_take_tax_point_head(m: TaxCollectionPointModel, rest: Seq<u8>)
    requires
        m.point_name.len() <= MAX_POINT_NAME_LEN,
        m.authority_type.len() <= MAX_AUTHORITY_TYPE_LEN,
        m.location.len() <= MAX_LOCATION_LEN,
        m.jurisdiction.len() <= MAX_JURISDICTION_LEN,
    ensures
        spec_take_tax_point_head(spec_encode_tax_point_head(m) + rest) == Some(
            ((m.owner.id, m.point_name, m.authority_type, m.location, m.jurisdiction), rest),
        ),
{
    let e1 = spec_u64_to_le_bytes(m.owner.id);
    let e2 = spec_encode_bytes(m.point_name);
    let e3 = spec_encode_bytes(m.authority_type);
    let e4 = spec_encode_bytes(m.location);
    let e5 = spec_encode_bytes(m.jurisdiction);
    lemma_concat_assoc(e1, e2 + (e3 + (e4 + e5)), rest);
    lemma_take_u64(m.owner.id, (e2 + (e3 + (e4 + e5))) + rest);
    lemma_concat_assoc(e2, e3 + (e4 + e5), rest);
    lemma_take_bytes(m.point_name, (e3 + (e4 + e5)) + rest, MAX_POINT_NAME_LEN as int);
    lemma_concat_assoc(e3, e4 + e5, rest);
    lemma_take_bytes(m.authority_type, (e4 + e5) + rest, MAX_AUTHORITY_TYPE_LEN as int);
    lemma_concat_assoc(e4, e5, rest);
    lemma_take_bytes(m.location, e5 + rest, MAX_LOCATION_LEN as int);
    lemma_take_bytes(m.jurisdiction, rest, MAX_JURISDICTION_LEN as int);
}

proof fn lemma_take_tax_point_tail(m: TaxCollectionPointModel, rest: Seq<u8>)
    ensures
        spec_take_tax_point_tail(spec_encode_tax_point_tail(m) + rest) == Some(
            (
                (
                    m.total_records_submitted,
                    m.total_amount_processed,
                    m.total_rewards_earned,
                    m.last_data_submission,
                    m.is_active,
                    m.verification_score,
                ),
                rest,
            ),
        ),
{
    let e1 = spec_u32_to_le_bytes(m.total_records_submitted);
    let e2 = spec_u64_to_le_bytes(m.total_amount_processed);
    let e3 = spec_u64_to_le_bytes(m.total_rewards_earned);
    let e4 = spec_i64_to_le_bytes(m.last_data_submission);
    let e5 = seq![spec_bool_to_byte(m.is_active)];
    let e6 = seq![m.verification_score];
    lemma_concat_assoc(e1, e2 + (e3 + (e4 + (e5 + e6))), rest);
    lemma_take_u32(m.total_records_submitted, (e2 + (e3 + (e4 + (e5 + e6)))) + rest);
    lemma_concat_assoc(e2, e3 + (e4 + (e5 + e6)), rest);
    lemma_take_u64(m.total_amount_processed, (e3 + (e4 + (e5 + e6))) + rest);
    lemma_concat_assoc(e3, e4 + (e5 + e6), rest);
    lemma_take_u64(m.total_rewards_earned, (e4 + (e5 + e6)) + rest);
    lemma_concat_assoc(e4, e5 + e6, rest);
    lemma_take_i64(m.last_data_submission, (e5 + e6) + rest);
    lemma_concat_assoc(e5, e6, rest);
    lemma_take_bool(m.is_active, e6 + rest);
    lemma_take_u8(m.verification_score, rest);
}

/// Round trip: reading a stream that starts with a well-formed collection
/// point's byte image yields that point, every field preserved, and the
/// rest untouched.
pub proof fn lemma_tax_point_roundtrip(m: TaxCollectionPointModel, rest: Seq<u8>)
    requires
        m.point_name.len() <= MAX_POINT_NAME_LEN,
        m.authority_type.len() <= MAX_AUTHORITY_TYPE_LEN,
        m.location.len() <= MAX_LOCATION_LEN,
        m.jurisdiction.len() <= MAX_JURISDICTION_LEN,
    ensures
        spec_take_tax_point(spec_encode_tax_point(m) + rest) == Some((m, rest)),
{
    let head = spec_encode_tax_point_head(m);
    let tail = spec_encode_tax_point_tail(m);
    lemma_concat_assoc(head, tail, rest);
    lemma_take_tax_point_head(m, tail + rest);
    lemma_take_tax_point_tail(m, rest);
}

// ---------------------------------------------------------------------
// Logistics partners.
// ---------------------------------------------------------------------
/// A partner as mathematics: the same fields, text as byte sequences and
/// the service areas as a sequence of byte sequences.
pub ghost struct LogisticsPartnerModel {
    pub owner: AccountId,
    pub partner_name: Seq<u8>,
    pub service_areas: Seq<Seq<u8>>,
    pub vehicle_count: u32,
    pub total_deliveries: u32,
    pub total_distance_km: u32,
    pub total_rewards_earned: u64,
    pub last_data_submission: i64,
    pub is_active: bool,
    pub efficiency_score: u8,
}

impl View for LogisticsPartner {
    type V = LogisticsPartnerModel;

    open spec fn view(&self) -> LogisticsPartnerModel {
        LogisticsPartnerModel {
            owner: self.owner,
            partner_name: self.partner_name@,
            service_areas: self.service_areas.deep_view(),
            vehicle_count: self.vehicle_count,
            total_deliveries: self.total_deliveries,
            total_distance_km: self.total_distance_km,
            total_rewards_earned: self.total_rewards_earned,
            last_data_submission: self.last_data_submission,
            is_active: self.is_active,
            efficiency_score: self.efficiency_score,
        }
    }
}

/// The byte image of a partner's identity, text and fleet.
pub open spec fn spec_encode_partner_head(m: LogisticsPartnerModel) -> Seq<u8> {
    spec_u64_to_le_bytes(m.owner.id) + (spec_encode_bytes(m.partner_name) + (
    spec_encode_text_list(m.service_areas) + spec_u32_to_le_bytes(m.vehicle_count)))
}

/// The byte image of a partner's totals, clock, flag and standing.
pub open spec fn spec_encode_partner_tail(m: LogisticsPartnerModel) -> Seq<u8> {
    spec_u32_to_le_bytes(m.total_deliveries) + (spec_u32_to_le_bytes(m.total_distance_km) + (
    spec_u64_to_le_bytes(m.total_rewards_earned) + (spec_i64_to_le_bytes(m.last_data_submission)
        + (seq![spec_bool_to_byte(m.is_active)] + seq![m.efficiency_score]))))
}

/// The byte image of a partner.
pub open spec fn spec_encode_logistics_partner(m: LogisticsPartnerModel) -> Seq<u8> {
    spec_encode_partner_head(m) + spec_encode_partner_tail(m)
}

/// Read a partner's identity, text and fleet from the front.
pub open spec fn spec_take_partner_head(s: Seq<u8>) -> Option<
    ((u64, Seq<u8>, Seq<Seq<u8>>, u32), Seq<u8>),
> {
    match spec_take_u64(s) {
        None => None,
        Some((owner_id, s)) => match spec_take_bytes(s, MAX_PARTNER_NAME_LEN as int) {
            None => None,
            Some((partner_name, s)) => match spec_take_text_list(
                s,
                MAX_SERVICE_AREAS as int,
                MAX_AREA_LEN as int,
            ) {
                None => None,
                Some((service_areas, s)) => match spec_take_u32(s) {
                    None => None,
                    Some((vehicle_count, s)) => Some(
                        ((owner_id, partner_name, service_areas, vehicle_count), s),
                    ),
                },
            },
        },
    }
}

/// Read a partner's totals, clock, flag and standing from the front.
pub open spec fn spec_take_partner_tail(s: Seq<u8>) -> Option<
    ((u32, u32, u64, i64, bool, u8), Seq<u8>),
> {
    match spec_take_u32(s) {
        None => None,
        Some((total_deliveries, s)) => match spec_take_u32(s) {
            None => None,
            Some((total_distance_km, s)) => match spec_take_u64(s) {
                None => None,
                Some((total_rewards_earned, s)) => match spec_take_i64(s) {
                    None => None,
                    Some((last_data_submission, s)) => match spec_take_bool(s) {
                        None => None,
                        Some((is_active, s)) => match spec_take_u8(s) {
                            None => None,
                            Some((efficiency_score, s)) => Some(
                                (
                                    (
                                        total_deliveries,
                                        total_distance_km,
                                        total_rewards_earned,
                                        last_data_submission,
                                        is_active,
                                        efficiency_score,
                                    ),
                                    s,
                                ),
                            ),
                        },
                    },
                },
            },
        },
    }
}

/// Read a partner from the front; oversize text or an oversize area list
/// is malformed.
pub open spec fn spec_take_logistics_partner(s: Seq<u8>) -> Option<
    (LogisticsPartnerModel, Seq<u8>),
> {
    match spec_take_partner_head(s) {
        None => None,
        Some((head, s)) => match spec_take_partner_tail(s) {
            None => None,
            Some((tail, s)) => Some(
                (
                    LogisticsPartnerModel {
                        owner: AccountId { id: head.0 },
                        partner_name: head.1,
                        service_areas: head.2,
                        vehicle_count: head.3,
                        total_deliveries: tail.0,
                        total_distance_km: tail.1,
                        total_rewards_earned: tail.2,
                        last_data_submission: tail.3,
                        is_active: tail.4,
                        efficiency_score: tail.5,
                    },
                    s,
                ),
            ),
        },
    }
}

/// Append a well-formed partner's byte image.
pub fn encode_logistics_partner(out: &mut Vec<u8>, r: &LogisticsPartner)
    requires
        r.wf(),
    ensures
        final(out)@ == old(out)@ + spec_encode_logistics_partner(r@),
{
    encode_u64(out, r.owner.id);
    encode_bytes(out, &r.partner_name);
    encode_text_list(out, &r.service_areas);
    encode_u32(out, r.vehicle_count);
    encode_u32(out, r.total_deliveries);
    encode_u32(out, r.total_distance_km);
    encode_u64(out, r.total_rewards_earned);
    encode_i64(out, r.last_data_submission);
    encode_bool(out, r.is_active);
    encode_u8(out, r.efficiency_score);
    assert(final(out)@ =~= old(out)@ + spec_encode_logistics_partner(r@));
}

/// Read a partner at the cursor. A decoded partner is well-formed.
pub fn decode_logistics_partner(buf: &[u8], pos: usize) -> (r: Option<(LogisticsPartner, usize)>)
    ensures
        match r {
            Some((v, end)) => {
                &&& pos <= end <= buf@.len()
                &&& spec_take_logistics_partner(buf@.skip(pos as int)) == Some(
                    (v@, buf@.skip(end as int)),
                )
                &&& v.wf()
            },
            None => pos > buf@.len() || spec_take_logistics_partner(buf@.skip(pos as int)) is None,
        },
{
    let (owner_id, pos) = match read_u64(buf, pos) {
        Some(v) => v,
        None => {
            return None;
        },
    };
    let (partner_name, pos) = match read_bytes(buf, pos, MAX_PARTNER_NAME_LEN) {
        Some(v) => v,
        None => {
            return None;
        },
    };
    let (service_areas, pos) = match read_text_list(buf, pos, MAX_SERVICE_AREAS, MAX_AREA_LEN) {
        Some(v) => v,
        None => {
            return None;
        },
    };
    let (vehicle_count, pos) = match read_u32(buf, pos) {
        Some(v) => v,
        None => {
            return None;
        },
    };
    let (total_deliveries, pos) = match read_u32(buf, pos) {
        Some(v) => v,
        None => {
            return None;
        },
    };
    let (total_distance_km, pos) = match read_u32(buf, pos) {
        Some(v) => v,
        None => {
            return None;
        },
    };
    let (total_rewards_earned, pos) = match read_u64(buf, pos) {
        Some(v) => v,
        None => {
            return None;
        },
    };
    let (last_data_submission, pos) = match read_i64(buf, pos) {
        Some(v) => v,
        None => {
            return None;
        },
    };
    let (is_active, pos) = match read_bool(buf, pos) {
        Some(v) => v,
        None => {
            return None;
        },
    };
    let (efficiency_score, pos) = match read_u8(buf, pos) {
        Some(v) => v,
        None => {
            return None;
        },
    };
    Some(
        (
            LogisticsPartner {
                owner: AccountId { id: owner_id },
                partner_name,
                service_areas,
                vehicle_count,
                total_deliveries,
                total_distance_km,
                total_rewards_earned,
                last_data_submission,
                is_active,
                efficiency_score,
            },
            pos,
        ),
    )
}

proof fn lemma_take_partner_head(m: LogisticsPartnerModel, rest: Seq<u8>)
    requires
        m.partner_name.len() <= MAX_PARTNER_NAME_LEN,
        m.service_areas.len() <= MAX_SERVICE_AREAS,
        forall|k: int|
            0 <= k < m.service_areas.len() ==> #[trigger] m.service_areas[k].len() <= MAX_AREA_LEN,
    ensures
        spec_take_partner_head(spec_encode_partner_head(m) + rest) == Some(
            ((m.owner.id, m.partner_name, m.service_areas, m.vehicle_count), rest),
        ),
{
    let e1 = spec_u64_to_le_bytes(m.owner.id);
    let e2 = spec_encode_bytes(m.partner_name);
    let e3 = spec_encode_text_list(m.service_areas);
    let e4 = spec_u32_to_le_bytes(m.vehicle_count);
    lemma_concat_assoc(e1, e2 + (e3 + e4), rest);
    lemma_take_u64(m.owner.id, (e2 + (e3 + e4)) + rest);
    lemma_concat_assoc(e2, e3 + e4, rest);
    lemma_take_bytes(m.partner_name, (e3 + e4) + rest, MAX_PARTNER_NAME_LEN as int);
    lemma_concat_assoc(e3, e4, rest);
    lemma_take_text_list(
        m.service_areas,
        e4 + rest,
        MAX_SERVICE_AREAS as int,
        MAX_AREA_LEN as int,
    );
    lemma_take_u32(m.vehicle_count, rest);
}

proof fn lemma_take_partner_tail(m: LogisticsPartnerModel, rest: Seq<u8>)
    ensures
        spec_take_partner_tail(spec_encode_partner_tail(m) + rest) == Some(
            (
                (
                    m.total_deliveries,
                    m.total_distance_km,
                    m.total_rewards_earned,
                    m.last_data_submission,
                    m.is_active,
                    m.efficiency_score,
                ),
                rest,
            ),
        ),
{
    let e1 = spec_u32_to_le_bytes(m.total_deliveries);
    let e2 = spec_u32_to_le_bytes(m.total_distance_km);
    let e3 = spec_u64_to_le_bytes(m.total_rewards_earned);
    let e4 = spec_i64_to_le_bytes(m.last_data_submission);
    let e5 = seq![spec_bool_to_byte(m.is_active)];
    let e6 = seq![m.efficiency_score];
    lemma_concat_assoc(e1, e2 + (e3 + (e4 + (e5 + e6))), rest);
    lemma_take_u32(m.total_deliveries, (e2 + (e3 + (e4 + (e5 + e6)))) + rest);
    lemma_concat_assoc(e2, e3 + (e4 + (e5 + e6)), rest);
    lemma_take_u32(m.total_distance_km, (e3 + (e4 + (e5 + e6))) + rest);
    lemma_concat_assoc(e3, e4 + (e5 + e6), rest);
    lemma_take_u64(m.total_rewards_earned, (e4 + (e5 + e6)) + rest);
    lemma_concat_assoc(e4, e5 + e6, rest);
    lemma_take_i64(m.last_data_submission, (e5 + e6) + rest);
    lemma_concat_assoc(e5, e6, rest);
    lemma_take_bool(m.is_active, e6 + rest);
    lemma_take_u8(m.efficiency_score, rest);
}

/// Round trip: reading a stream that starts with a well-formed partner's
/// byte image yields that partner, every field preserved — service areas
/// included — and the rest untouched.
pub proof fn lemma_logistics_partner_roundtrip(m: LogisticsPartnerModel, rest: Seq<u8>)
    requires
        m.partner_name.len() <= MAX_PARTNER_NAME_LEN,
        m.service_areas.len() <= MAX_SERVICE_AREAS,
        forall|k: int|
            0 <= k < m.service_areas.len() ==> #[trigger] m.service_areas[k].len() <= MAX_AREA_LEN,
    ensures
        spec_take_logistics_partner(spec_encode_logistics_partner(m) + rest) == Some((m, rest)),
{
    let head = spec_encode_partner_head(m);
    let tail = spec_encode_partner_tail(m);
    lemma_concat_assoc(head, tail, rest);
    lemma_take_partner_head(m, tail + rest);
    lemma_take_partner_tail(m, rest);
}

// ---------------------------------------------------------------------
// Farms.
// ---------------------------------------------------------------------
/// A farm as mathematics: the same fields, text as byte sequences and the
/// crop types as a sequence of byte sequences.
pub ghost struct FarmModel {
    pub owner: AccountId,
    pub farm_name: Seq<u8>,
    pub location: Seq<u8>,
    pub farm_size_acres: u32,
    pub crop_types: Seq<Seq<u8>>,
    pub total_data_submissions: u32,
    pub total_rewards_earned: u64,
    pub last_data_submission: i64,
    pub is_active: bool,
    pub yield_improvement: u8,
}

impl View for Farm {
    type V = FarmModel;

    open spec fn view(&self) -> FarmModel {
        FarmModel {
            owner: self.owner,
            farm_name: self.farm_name@,
            location: self.location@,
            farm_size_acres: self.farm_size_acres,
            crop_types: self.crop_types.deep_view(),
            total_data_submissions: self.total_data_submissions,
            total_rewards_earned: self.total_rewards_earned,
            last_data_submission: self.last_data_submission,
            is_active: self.is_active,
            yield_improvement: self.yield_improvement,
        }
    }
}

/// The byte image of a farm's identity, text and size.
pub open spec fn spec_encode_farm_head(m: FarmModel) -> Seq<u8> {
    spec_u64_to_le_bytes(m.owner.id) + (spec_encode_bytes(m.farm_name) + (spec_encode_bytes(
        m.location,
    ) + (spec_u32_to_le_bytes(m.farm_size_acres) + spec_encode_text_list(m.crop_types))))
}

/// The byte image of a farm's totals, clock, flag and standing.
pub open spec fn spec_encode_farm_tail(m: FarmModel) -> Seq<u8> {
    spec_u32_to_le_bytes(m.total_data_submissions) + (spec_u64_to_le_bytes(m.total_rewards_earned)
        + (spec_i64_to_le_bytes(m.last_data_submission) + (seq![spec_bool_to_byte(m.is_active)]
        + seq![m.yield_improvement])))
}

/// The byte image of a farm.
pub open spec fn spec_encode_farm(m: FarmModel) -> Seq<u8> {
    spec_encode_farm_head(m) + spec_encode_farm_tail(m)
}

/// Read a farm's identity, text and size from the front.
pub open spec fn spec_take_farm_head(s: Seq<u8>) -> Option<
    ((u64, Seq<u8>, Seq<u8>, u32, Seq<Seq<u8>>), Seq<u8>),
> {
    match spec_take_u64(s) {
        None => None,
        Some((owner_id, s)) => match spec_take_bytes(s, MAX_FARM_NAME_LEN as int) {
            None => None,
            Some((farm_name, s)) => match spec_take_bytes(s, MAX_LOCATION_LEN as int) {
                None => None,
                Some((location, s)) => match spec_take_u32(s) {
                    None => None,
                    Some((farm_size_acres, s)) => match spec_take_text_list(
                        s,
                        MAX_CROP_TYPES as int,
                        MAX_CROP_LEN as int,
                    ) {
                        None => None,
                        Some((crop_types, s)) => Some(
                            ((owner_id, farm_name, location, farm_size_acres, crop_types), s),
                        ),
                    },
                },
            },
        },
    }
}

/// Read a farm's totals, clock, flag and standing from the front.
pub open spec fn spec_take_farm_tail(s: Seq<u8>) -> Option<((u32, u64, i64, bool, u8), Seq<u8>)> {
    match spec_take_u32(s) {
        None => None,
        Some((total_data_submissions, s)) => match spec_take_u64(s) {
            None => None,
            Some((total_rewards_earned, s)) => match spec_take_i64(s) {
                None => None,
                Some((last_data_submission, s)) => match spec_take_bool(s) {
                    None => None,
                    Some((is_active, s)) => match spec_take_u8(s) {
                        None => None,
                        Some((yield_improvement, s)) => Some(
                            (
                                (
                                    total_data_submissions,
                                    total_rewards_earned,
                                    last_data_submission,
                                    is_active,
                                    yield_improvement,
                                ),
                                s,
                            ),
                        ),
                    },
                },
            },
        },
    }
}

/// Read a farm from the front; oversize text or an oversize crop list is
/// malformed.
pub open spec fn spec_take_farm(s: Seq<u8>) -> Option<(FarmModel, Seq<u8>)> {
    match spec_take_farm_head(s) {
        None => None,
        Some((head, s)) => match spec_take_farm_tail(s) {
            None => None,
            Some((tail, s)) => Some(
                (
                    FarmModel {
                        owner: AccountId { id: head.0 },
                        farm_name: head.1,
                        location: head.2,
                        farm_size_acres: head.3,
                        crop_types: head.4,
                        total_data_submissions: tail.0,
                        total_rewards_earned: tail.1,
                        last_data_submission: tail.2,
                        is_active: tail.3,
                        yield_improvement: tail.4,
                    },
                    s,
                ),
            ),
        },
    }
}

/// Append a well-formed farm's byte image.
pub fn encode_farm(out: &mut Vec<u8>, r: &Farm)
    requires
        r.wf(),
    ensures
        final(out)@ == old(out)@ + spec_encode_farm(r@),
{
    encode_u64(out, r.owner.id);
    encode_bytes(out, &r.farm_name);
    encode_bytes(out, &r.location);
    encode_u32(out, r.farm_size_acres);
    encode_text_list(out, &r.crop_types);
    encode_u32(out, r.total_data_submissions);
    encode_u64(out, r.total_rewards_earned);
    encode_i64(out, r.last_data_submission);
    encode_bool(out, r.is_active);
    encode_u8(out, r.yield_improvement);
    assert(final(out)@ =~= old(out)@ + spec_encode_farm(r@));
}

/// Read a farm at the cursor. A decoded farm is well-formed.
pub fn decode_farm(buf: &[u8], pos: usize) -> (r: Option<(Farm, usize)>)
    ensures
        match r {
            Some((v, end)) => {
                &&& pos <= end <= buf@.len()
                &&& spec_take_farm(buf@.skip(pos as int)) == Some((v@, buf@.skip(end as int)))
                &&& v.wf()
            },
            None => pos > buf@.len() || spec_take_farm(buf@.skip(pos as int)) is None,
        },
{
    let (owner_id, pos) = match read_u64(buf, pos) {
        Some(v) => v,
        None => {
            return None;
        },
    };
    let (farm_name, pos) = match read_bytes(buf, pos, MAX_FARM_NAME_LEN) {
        Some(v) => v,
        None => {
            return None;
        },
    };
    let (location, pos) = match read_bytes(buf, pos, MAX_LOCATION_LEN) {
        Some(v) => v,
        None => {
            return None;
        },
    };
    let (farm_size_acres, pos) = match read_u32(buf, pos) {
        Some(v) => v,
        None => {
            return None;
        },
    };
    let (crop_types, pos) = match read_text_list(buf, pos, MAX_CROP_TYPES, MAX_CROP_LEN) {
        Some(v) => v,
        None => {
            return None;
        },
    };
    let (total_data_submissions, pos) = match read_u32(buf, pos) {
        Some(v) => v,
        None => {
            return None;
        },
    };
    let (total_rewards_earned, pos) = match read_u64(buf, pos) {
        Some(v) => v,
        None => {
            return None;
        },
    };
    let (last_data_submission, pos) = match read_i64(buf, pos) {
        Some(v) => v,
        None => {
            return None;
        },
    };
    let (is_active, pos) = match read_bool(buf, pos) {
        Some(v) => v,
        None => {
            return None;
        },
    };
    let (yield_improvement, pos) = match read_u8(buf, pos) {
        Some(v) => v,
        None => {
            return None;
        },
    };
    Some(
        (
            Farm {
                owner: AccountId { id: owner_id },
                farm_name,
                location,
                farm_size_acres,
                crop_types,
                total_data_submissions,
                total_rewards_earned,
                last_data_submission,
                is_active,
                yield_improvement,
            },
            pos,
        ),
    )
}

proof fn lemma_take_farm_head(m: FarmModel, rest: Seq<u8>)
    requires
        m.farm_name.len() <= MAX_FARM_NAME_LEN,
        m.location.len() <= MAX_LOCATION_LEN,
        m.crop_types.len() <= MAX_CROP_TYPES,
        forall|k: int|
            0 <= k < m.crop_types.len() ==> #[trigger] m.crop_types[k].len() <= MAX_CROP_LEN,
    ensures
        spec_take_farm_head(spec_encode_farm_head(m) + rest) == Some(
            ((m.owner.id, m.farm_name, m.location, m.farm_size_acres, m.crop_types), rest),
        ),
{
    let e1 = spec_u64_to_le_bytes(m.owner.id);
    let e2 = spec_encode_bytes(m.farm_name);
    let e3 = spec_encode_bytes(m.location);
    let e4 = spec_u32_to_le_bytes(m.farm_size_acres);
    let e5 = spec_encode_text_list(m.crop_types);
    lemma_concat_assoc(e1, e2 + (e3 + (e4 + e5)), rest);
    lemma_take_u64(m.owner.id, (e2 + (e3 + (e4 + e5))) + rest);
    lemma_concat_assoc(e2, e3 + (e4 + e5), rest);
    lemma_take_bytes(m.farm_name, (e3 + (e4 + e5)) + rest, MAX_FARM_NAME_LEN as int);
    lemma_concat_assoc(e3, e4 + e5, rest);
    lemma_take_bytes(m.location, (e4 + e5) + rest, MAX_LOCATION_LEN as int);
    lemma_concat_assoc(e4, e5, rest);
    lemma_take_u32(m.farm_size_acres, e5 + rest);
    lemma_take_text_list(m.crop_types, rest, MAX_CROP_TYPES as int, MAX_CROP_LEN as int);
}

proof fn lemma_take_farm_tail(m: FarmModel, rest: Seq<u8>)
    ensures
        spec_take_farm_tail(spec_encode_farm_tail(m) + rest) == Some(
            (
                (
                    m.total_data_submissions,
                    m.total_rewards_earned,
                    m.last_data_submission,
                    m.is_active,
                    m.yield_improvement,
                ),
                rest,
            ),
        ),
{
    let e1 = spec_u32_to_le_bytes(m.total_data_submissions);
    let e2 = spec_u64_to_le_bytes(m.total_rewards_earned);
    let e3 = spec_i64_to_le_bytes(m.last_data_submission);
    let e4 = seq![spec_bool_to_byte(m.is_active)];
    let e5 = seq![m.yield_improvement];
    lemma_concat_assoc(e1, e2 + (e3 + (e4 + e5)), rest);
    lemma_take_u32(m.total_data_submissions, (e2 + (e3 + (e4 + e5))) + rest);
    lemma_concat_assoc(e2, e3 + (e4 + e5), rest);
    lemma_take_u64(m.total_rewards_earned, (e3 + (e4 + e5)) + rest);
    lemma_concat_assoc(e3, e4 + e5, rest);
    lemma_take_i64(m.last_data_submission, (e4 + e5) + rest);
    lemma_concat_assoc(e4, e5, rest);
    lemma_take_bool(m.is_active, e5 + rest);
    lemma_take_u8(m.yield_improvement, rest);
}

/// Round trip: reading a stream that starts with a well-formed farm's
/// byte image yields that farm, every field preserved — crop types
/// included — and the rest untouched.
pub proof fn lemma_farm_roundtrip(m: FarmModel, rest: Seq<u8>)
    requires
        m.farm_name.len() <= MAX_FARM_NAME_LEN,
        m.location.len() <= MAX_LOCATION_LEN,
        m.crop_types.len() <= MAX_CROP_TYPES,
        forall|k: int|
            0 <= k < m.crop_types.len() ==> #[trigger] m.crop_types[k].len() <= MAX_CROP_LEN,
    ensures
        spec_take_farm(spec_encode_farm(m) + rest) == Some((m, rest)),
{
    let head = spec_encode_farm_head(m);
    let tail = spec_encode_farm_tail(m);
    lemma_concat_assoc(head, tail, rest);
    lemma_take_farm_head(m, tail + rest);
    lemma_take_farm_tail(m, rest);
}

// ---------------------------------------------------------------------
// Size budgets: each asset record's byte image is bounded whenever the
// record is well-formed, so a host that pre-allocates fixed storage can
// budget each slot.
// ---------------------------------------------------------------------
/// Largest encoded size of a well-formed hotspot.
pub const WIFI_HOTSPOT_MAX_ENCODED_LEN: usize = 150;

/// Largest encoded size of a well-formed logistics partner.
pub const LOGISTICS_PARTNER_MAX_ENCODED_LEN: usize = 436;

/// Largest encoded size of a well-formed farm.
pub const FARM_MAX_ENCODED_LEN: usize = 316;

/// Largest encoded size of a well-formed healthcare provider.
pub const HEALTHCARE_PROVIDER_MAX_ENCODED_LEN: usize = 350;

/// Largest encoded size of a well-formed tax collection point.
pub const TAX_POINT_MAX_ENCODED_LEN: usize = 354;

/// A hotspot's byte image is its fixed fields plus its text, and within
/// the declared budget whenever the hotspot is well-formed.
pub proof fn lemma_wifi_hotspot_encoded_len(m: WiFiHotspotModel)
    ensures
        spec_encode_wifi_hotspot(m).len() == 50 + m.location.len(),
        m.location.len() <= MAX_LOCATION_LEN ==> spec_encode_wifi_hotspot(m).len()
            <= WIFI_HOTSPOT_MAX_ENCODED_LEN,
{
    vstd::bytes::lemma_auto_spec_u32_to_from_le_bytes();
    vstd::bytes::lemma_auto_spec_u64_to_from_le_bytes();
}

/// A well-formed partner's byte image is within the declared budget.
pub proof fn lemma_logistics_partner_encoded_len(m: LogisticsPartnerModel)
    requires
        m.partner_name.len() <= MAX_PARTNER_NAME_LEN,
        m.service_areas.len() <= MAX_SERVICE_AREAS,
        forall|k: int|
            0 <= k < m.service_areas.len() ==> #[trigger] m.service_areas[k].len() <= MAX_AREA_LEN,
    ensures
        spec_encode_logistics_partner(m).len() <= LOGISTICS_PARTNER_MAX_ENCODED_LEN,
{
    vstd::bytes::lemma_auto_spec_u32_to_from_le_bytes();
    vstd::bytes::lemma_auto_spec_u64_to_from_le_bytes();
    crate::codec::lemma_encode_texts_len(m.service_areas, MAX_AREA_LEN as int);
    assert(m.service_areas.len() * (4 + MAX_AREA_LEN as int) <= 340) by (nonlinear_arith)
        requires
            m.service_areas.len() <= 10,
    ;
}

/// A well-formed farm's byte image is within the declared budget.
pub proof fn lemma_farm_encoded_len(m: FarmModel)
    requires
        m.farm_name.len() <= MAX_FARM_NAME_LEN,
        m.location.len() <= MAX_LOCATION_LEN,
        m.crop_types.len() <= MAX_CROP_TYPES,
        forall|k: int|
            0 <= k < m.crop_types.len() ==> #[trigger] m.crop_types[k].len() <= MAX_CROP_LEN,
    ensures
        spec_encode_farm(m).len() <= FARM_MAX_ENCODED_LEN,
{
    vstd::bytes::lemma_auto_spec_u32_to_from_le_bytes();
    vstd::bytes::lemma_auto_spec_u64_to_from_le_bytes();
    crate::codec::lemma_encode_texts_len(m.crop_types, MAX_CROP_LEN as int);
    assert(m.crop_types.len() * (4 + MAX_CROP_LEN as int) <= 120) by (nonlinear_arith)
        requires
            m.crop_types.len() <= 5,
    ;
}

/// A provider's byte image is its fixed fields plus its text, and within
/// the declared budget whenever the provider is well-formed.
pub proof fn lemma_healthcare_provider_encoded_len(m: HealthcareProviderModel)
    ensures
        spec_encode_healthcare_provider(m).len() == 50 + m.provider_name.len()
            + m.provider_type.len() + m.location.len() + m.license_number.len(),
        m.provider_name.len() <= MAX_PROVIDER_NAME_LEN && m.provider_type.len()
            <= MAX_PROVIDER_TYPE_LEN && m.location.len() <= MAX_LOCATION_LEN
            && m.license_number.len() <= MAX_LICENSE_LEN ==> spec_encode_healthcare_provider(
            m,
        ).len() <= HEALTHCARE_PROVIDER_MAX_ENCODED_LEN,
{
    vstd::bytes::lemma_auto_spec_u32_to_from_le_bytes();
    vstd::bytes::lemma_auto_spec_u64_to_from_le_bytes();
}

/// A collection point's byte image is its fixed fields plus its text, and
/// within the declared budget whenever the point is well-formed.
pub proof fn lemma_tax_point_encoded_len(m: TaxCollectionPointModel)
    ensures
        spec_encode_tax_point(m).len() == 54 + m.point_name.len() + m.authority_type.len()
            + m.location.len() + m.jurisdiction.len(),
        m.point_name.len() <= MAX_POINT_NAME_LEN && m.authority_type.len()
            <= MAX_AUTHORITY_TYPE_LEN && m.location.len() <= MAX_LOCATION_LEN
            && m.jurisdiction.len() <= MAX_JURISDICTION_LEN ==> spec_encode_tax_point(m).len()
            <= TAX_POINT_MAX_ENCODED_LEN,
{
    vstd::bytes::lemma_auto_spec_u32_to_from_le_bytes();
    vstd::bytes::lemma_auto_spec_u64_to_from_le_bytes();
}

} // verus!
