use cloudapps::models::alert::{CloseType, ResolutionStatus, Severity};
use cloudapps::models::data_enrichment::SubnetCategory;
use cloudapps::models::entity::EntityStatus;
use cloudapps::models::file::{FileType, SharingLevel};

#[test]
fn test_severity_roundtrip() {
    for val in 0..=3 {
        let sev = Severity::from_api(val).unwrap();
        assert_eq!(sev.to_api(), val);
    }
}

#[test]
fn test_severity_from_str() {
    assert_eq!(Severity::from_str_loose("high"), Some(Severity::High));
    assert_eq!(Severity::from_str_loose("HIGH"), Some(Severity::High));
    assert_eq!(Severity::from_str_loose("unknown"), None);
}

#[test]
fn test_resolution_status_roundtrip() {
    for val in 0..=5 {
        let status = ResolutionStatus::from_api(val).unwrap();
        assert_eq!(status.to_api(), val);
    }
}

#[test]
fn test_close_type_path() {
    assert_eq!(CloseType::Benign.api_path_segment(), "close_benign");
    assert_eq!(CloseType::FalsePositive.api_path_segment(), "close_false_positive");
    assert_eq!(CloseType::TruePositive.api_path_segment(), "close_true_positive");
}

#[test]
fn test_close_type_from_str() {
    assert_eq!(CloseType::from_str_loose("false-positive"), Some(CloseType::FalsePositive));
    assert_eq!(CloseType::from_str_loose("true_positive"), Some(CloseType::TruePositive));
}

#[test]
fn test_subnet_category_roundtrip() {
    for val in 1..=6 {
        let cat = SubnetCategory::from_api(val).unwrap();
        assert_eq!(cat.to_api(), val);
    }
}

#[test]
fn test_subnet_category_from_str() {
    assert_eq!(SubnetCategory::from_str_loose("vpn"), Some(SubnetCategory::Vpn));
    assert_eq!(SubnetCategory::from_str_loose("cloud-provider"), Some(SubnetCategory::CloudProvider));
    assert_eq!(SubnetCategory::from_str_loose("admin"), Some(SubnetCategory::Administrative));
}

#[test]
fn test_entity_status_roundtrip() {
    for val in 0..=4 {
        let status = EntityStatus::from_api(val).unwrap();
        assert_eq!(status.to_api(), val);
    }
}

#[test]
fn test_entity_status_from_str() {
    assert_eq!(EntityStatus::from_str_loose("active"), Some(EntityStatus::Active));
    assert_eq!(EntityStatus::from_str_loose("n/a"), Some(EntityStatus::Na));
}

#[test]
fn test_file_type_roundtrip() {
    for val in 0..=6 {
        let ft = FileType::from_api(val).unwrap();
        assert_eq!(ft.to_api(), val);
    }
}

#[test]
fn test_sharing_level_roundtrip() {
    for val in 0..=4 {
        let sl = SharingLevel::from_api(val).unwrap();
        assert_eq!(sl.to_api(), val);
    }
}

#[test]
fn test_file_type_from_str() {
    assert_eq!(FileType::from_str_loose("document"), Some(FileType::Document));
    assert_eq!(FileType::from_str_loose("doc"), Some(FileType::Document));
}

#[test]
fn test_sharing_level_from_str() {
    assert_eq!(SharingLevel::from_str_loose("internet"), Some(SharingLevel::Internet));
}

#[test]
fn api_values_outside_the_enums_are_rejected() {
    assert_eq!(Severity::from_api(4), None);
    assert_eq!(Severity::from_api(-1), None);
    assert_eq!(ResolutionStatus::from_api(6), None);
    assert_eq!(SubnetCategory::from_api(0), None);
    assert_eq!(SubnetCategory::from_api(7), None);
    assert_eq!(EntityStatus::from_api(5), None);
    assert_eq!(FileType::from_api(7), None);
    assert_eq!(SharingLevel::from_api(5), None);
}

#[test]
fn labels_parse_back() {
    for val in 0..=3 {
        let s = Severity::from_api(val).unwrap();
        assert_eq!(Severity::from_str_loose(s.as_str()), Some(s));
    }
    for val in 0..=5 {
        let s = ResolutionStatus::from_api(val).unwrap();
        assert_eq!(ResolutionStatus::from_str_loose(s.as_str()), Some(s));
    }
    for val in 1..=6 {
        let s = SubnetCategory::from_api(val).unwrap();
        assert_eq!(SubnetCategory::from_str_loose(s.as_str()), Some(s));
    }
    for val in 0..=4 {
        let s = EntityStatus::from_api(val).unwrap();
        assert_eq!(EntityStatus::from_str_loose(s.as_str()), Some(s));
    }
    for val in 0..=6 {
        let s = FileType::from_api(val).unwrap();
        assert_eq!(FileType::from_str_loose(s.as_str()), Some(s));
    }
    for val in 0..=4 {
        let s = SharingLevel::from_api(val).unwrap();
        assert_eq!(SharingLevel::from_str_loose(s.as_str()), Some(s));
    }
}

#[test]
fn severity_labels_are_upper_case() {
    assert_eq!(Severity::High.as_str(), "HIGH");
    assert_eq!(Severity::from_api(3).unwrap().as_str(), "INFORMATIONAL");
}

#[test]
fn close_type_rejects_unknown_words() {
    assert_eq!(CloseType::from_str_loose("maybe"), None);
    assert_eq!(CloseType::from_str_loose("BENIGN"), Some(CloseType::Benign));
}

#[test]
fn lowercased_words_map_to_values() {
    assert_eq!(Severity::from_lowercase("medium"), Some(Severity::Medium));
    assert_eq!(Severity::from_lowercase("Medium"), None);
    assert_eq!(ResolutionStatus::from_lowercase("false_positive"), Some(ResolutionStatus::FalsePositive));
    assert_eq!(CloseType::from_lowercase("benign"), Some(CloseType::Benign));
    assert_eq!(SubnetCategory::from_lowercase("cloud_provider"), Some(SubnetCategory::CloudProvider));
    assert_eq!(EntityStatus::from_lowercase("n/a"), Some(EntityStatus::Na));
    assert_eq!(FileType::from_lowercase("folder"), Some(FileType::Folder));
    assert_eq!(SharingLevel::from_lowercase("public"), Some(SharingLevel::Public));
}
