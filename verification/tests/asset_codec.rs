use depin_network::asset_codec::{
    decode_farm, decode_healthcare_provider, decode_logistics_partner, decode_tax_point,
    decode_wifi_hotspot, encode_farm, encode_healthcare_provider, encode_logistics_partner,
    encode_tax_point, encode_wifi_hotspot,
};
use depin_network::state::{
    AccountId, Farm, HealthcareProvider, LogisticsPartner, TaxCollectionPoint, WiFiHotspot,
};

fn user(id: u64) -> AccountId {
    AccountId { id }
}

fn sample_hotspot() -> WiFiHotspot {
    WiFiHotspot {
        owner: user(31),
        location: b"rooftop, sector 9".to_vec(),
        coverage_radius: 4_999,
        bandwidth_mbps: 1_000,
        total_users_served: 77,
        total_data_transferred: u64::MAX,
        total_rewards_earned: 5,
        last_data_submission: -1,
        is_active: false,
        reputation_score: 83,
    }
}

fn sample_partner(areas: Vec<Vec<u8>>) -> LogisticsPartner {
    LogisticsPartner {
        owner: user(32),
        partner_name: b"swift cargo".to_vec(),
        service_areas: areas,
        vehicle_count: 40,
        total_deliveries: 9_000,
        total_distance_km: 123_456,
        total_rewards_earned: 987,
        last_data_submission: 77,
        is_active: true,
        efficiency_score: 91,
    }
}

fn sample_farm(crops: Vec<Vec<u8>>) -> Farm {
    Farm {
        owner: user(33),
        farm_name: b"green acres".to_vec(),
        location: b"punjab".to_vec(),
        farm_size_acres: 10_000,
        crop_types: crops,
        total_data_submissions: 11,
        total_rewards_earned: 275,
        last_data_submission: i64::MAX,
        is_active: true,
        yield_improvement: 12,
    }
}

fn sample_provider() -> HealthcareProvider {
    HealthcareProvider {
        owner: user(34),
        provider_name: b"city clinic".to_vec(),
        provider_type: b"clinic".to_vec(),
        location: b"lahore".to_vec(),
        license_number: b"LIC-0042".to_vec(),
        total_data_submissions: 3,
        total_records_collected: u32::MAX,
        total_rewards_earned: 1_140,
        last_data_submission: 3_600,
        is_active: true,
        compliance_score: 100,
    }
}

fn sample_point() -> TaxCollectionPoint {
    TaxCollectionPoint {
        owner: user(35),
        point_name: b"customs desk".to_vec(),
        authority_type: b"federal".to_vec(),
        location: b"karachi".to_vec(),
        jurisdiction: b"sindh".to_vec(),
        total_records_submitted: 8,
        total_amount_processed: 1_000_000,
        total_rewards_earned: 1_920,
        last_data_submission: 0,
        is_active: true,
        verification_score: 97,
    }
}

#[test]
fn wifi_hotspot_roundtrip() {
    let record = sample_hotspot();
    let mut buf = Vec::new();
    encode_wifi_hotspot(&mut buf, &record);
    let (decoded, end) = decode_wifi_hotspot(&buf, 0).unwrap();
    assert_eq!(decoded, record);
    assert_eq!(end, buf.len());
}

#[test]
fn wifi_hotspot_roundtrip_boundary_location() {
    let mut record = sample_hotspot();
    record.location = vec![b'L'; 100];
    let mut buf = Vec::new();
    encode_wifi_hotspot(&mut buf, &record);
    let (decoded, _) = decode_wifi_hotspot(&buf, 0).unwrap();
    assert_eq!(decoded, record);
}

#[test]
fn logistics_partner_roundtrip_with_areas() {
    let record = sample_partner(vec![b"lahore".to_vec(), b"multan".to_vec(), Vec::new()]);
    let mut buf = Vec::new();
    encode_logistics_partner(&mut buf, &record);
    let (decoded, end) = decode_logistics_partner(&buf, 0).unwrap();
    assert_eq!(decoded, record);
    assert_eq!(end, buf.len());
}

#[test]
fn logistics_partner_roundtrip_boundary_list() {
    let record = sample_partner(vec![vec![b'a'; 30]; 10]);
    let mut buf = Vec::new();
    encode_logistics_partner(&mut buf, &record);
    let (decoded, _) = decode_logistics_partner(&buf, 0).unwrap();
    assert_eq!(decoded, record);
}

#[test]
fn logistics_partner_empty_area_list_roundtrip() {
    let record = sample_partner(Vec::new());
    let mut buf = Vec::new();
    encode_logistics_partner(&mut buf, &record);
    let (decoded, _) = decode_logistics_partner(&buf, 0).unwrap();
    assert_eq!(decoded, record);
}

#[test]
fn farm_roundtrip_with_crops() {
    let record = sample_farm(vec![b"wheat".to_vec(), b"cotton".to_vec()]);
    let mut buf = Vec::new();
    encode_farm(&mut buf, &record);
    let (decoded, end) = decode_farm(&buf, 0).unwrap();
    assert_eq!(decoded, record);
    assert_eq!(end, buf.len());
}

#[test]
fn healthcare_provider_roundtrip() {
    let record = sample_provider();
    let mut buf = Vec::new();
    encode_healthcare_provider(&mut buf, &record);
    let (decoded, end) = decode_healthcare_provider(&buf, 0).unwrap();
    assert_eq!(decoded, record);
    assert_eq!(end, buf.len());
}

#[test]
fn tax_point_roundtrip() {
    let record = sample_point();
    let mut buf = Vec::new();
    encode_tax_point(&mut buf, &record);
    let (decoded, end) = decode_tax_point(&buf, 0).unwrap();
    assert_eq!(decoded, record);
    assert_eq!(end, buf.len());
}

#[test]
fn truncated_asset_record_rejected() {
    let record = sample_partner(vec![b"lahore".to_vec()]);
    let mut buf = Vec::new();
    encode_logistics_partner(&mut buf, &record);
    buf.pop();
    assert!(decode_logistics_partner(&buf, 0).is_none());
}

#[test]
fn oversize_area_count_rejected_at_decode() {
    let record = sample_partner(Vec::new());
    let mut buf = Vec::new();
    encode_logistics_partner(&mut buf, &record);
    // The area count prefix sits after the owner id and the name's
    // four-byte prefix plus its bytes; raise it past the hard maximum.
    let count_at = 8 + 4 + record.partner_name.len();
    buf[count_at] = 11;
    assert!(decode_logistics_partner(&buf, 0).is_none());
}
