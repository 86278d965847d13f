use sui_rules::deny_list_v2::{
    check_address_denied_by_coin, config_key, get_per_type_coin_deny_list_v2, read_config_setting,
    AddressKey, Config, ConfigKey, DenyCapV2, ObjectStore, Setting, SettingData, UserInputError,
};
use sui_rules::move_types::{MoveTypeTagTrait, ObjectID, StructTag, SuiAddress, TypeTag, UID};
use sui_rules::object_store::{DOFWrapper, FieldTable};
use sui_rules::signing::{
    check_coin_deny_list_v2_during_signing, SigningAction, SigningCheck,
};

const USDX: &str = "0xa::usdx::USDX";
const EURX: &str = "0xb::eurx::EURX";
const YENX: &str = "0xc::yenx::YENX";

fn id(n: u8) -> ObjectID {
    ObjectID { bytes: [n; 32] }
}

fn address(n: u8) -> SuiAddress {
    SuiAddress { bytes: [n; 32] }
}

fn config(n: u8) -> Config {
    Config { id: UID { id: id(n) } }
}

fn coins(names: &[&str]) -> Vec<String> {
    names.iter().map(|name| name.to_string()).collect()
}

fn setting(epoch: u64, newer: bool, older: Option<bool>) -> Setting<bool> {
    Setting {
        data: Some(SettingData {
            newer_value_epoch: epoch,
            newer_value: newer,
            older_value_opt: older,
        }),
    }
}

fn empty_store() -> ObjectStore {
    ObjectStore {
        deny_list_root: Some(id(1)),
        configs: FieldTable::new(),
        settings: FieldTable::new(),
    }
}

/// USDX and EURX have a configuration; USDX denies the address 7, EURX the address 8.
fn store() -> ObjectStore {
    let mut store = empty_store();
    store.configs.insert(id(1), config_key(&USDX.to_string()), config(10));
    store.configs.insert(id(1), config_key(&EURX.to_string()), config(11));
    store.settings.insert(id(10), AddressKey(address(7)), setting(5, true, None));
    store.settings.insert(id(11), AddressKey(address(8)), setting(5, true, Some(false)));
    store.settings.insert(id(11), AddressKey(address(7)), setting(5, false, Some(true)));
    store
}

fn denied(n: u8, coin: &str) -> Result<(), UserInputError> {
    Err(UserInputError::AddressDeniedForCoin { address: address(n), coin_type: coin.to_string() })
}

#[test]
fn config_key_holds_the_bytes_of_the_coin_type() {
    assert_eq!(
        config_key(&"0xa::é".to_string()),
        DOFWrapper {
            name: ConfigKey {
                per_type_index: 0,
                per_type_key: vec![0x30, 0x78, 0x61, 0x3a, 0x3a, 0xc3, 0xa9],
            }
        }
    );
}

#[test]
fn type_tags_name_the_framework_structs() {
    let mut framework = [0u8; 32];
    framework[31] = 2;
    assert_eq!(
        ConfigKey::get_type_tag(),
        TypeTag::Struct(Box::new(StructTag {
            address: framework,
            module: "deny_list".to_string(),
            name: "ConfigKey".to_string(),
            type_params: vec![],
        }))
    );
    assert_eq!(
        AddressKey::get_type_tag(),
        TypeTag::Struct(Box::new(StructTag {
            address: framework,
            module: "deny_list".to_string(),
            name: "AddressKey".to_string(),
            type_params: vec![],
        }))
    );
}

#[test]
fn later_fields_replace_earlier_ones() {
    let mut store = store();
    store.configs.insert(id(1), config_key(&USDX.to_string()), config(12));
    assert_eq!(get_per_type_coin_deny_list_v2(&USDX.to_string(), &store), Some(config(12)));
    assert_eq!(get_per_type_coin_deny_list_v2(&EURX.to_string(), &store), Some(config(11)));
}

#[test]
fn configurations_are_found_by_root_and_coin_type() {
    let mut store = store();
    assert_eq!(get_per_type_coin_deny_list_v2(&USDX.to_string(), &store), Some(config(10)));
    assert_eq!(get_per_type_coin_deny_list_v2(&YENX.to_string(), &store), None);
    store.deny_list_root = Some(id(2));
    assert_eq!(get_per_type_coin_deny_list_v2(&USDX.to_string(), &store), None);
}

#[test]
fn settings_are_read_as_of_an_epoch() {
    let store = store();
    let read = |cur_epoch| {
        read_config_setting(&store.settings, &config(11), AddressKey(address(8)), cur_epoch)
    };
    assert_eq!(read(None), Some(&true));
    assert_eq!(read(Some(6)), Some(&true));
    assert_eq!(read(Some(5)), Some(&false));
    assert_eq!(read(Some(4)), Some(&false));
}

#[test]
fn reads_change_at_most_once_over_the_epochs() {
    let store = store();
    for (n, of) in [(10, 7), (11, 7), (11, 8), (10, 9)] {
        let name = AddressKey(address(of));
        let reads: Vec<Option<&bool>> = (0..=9)
            .map(|epoch| read_config_setting(&store.settings, &config(n), name, Some(epoch)))
            .collect();
        let changes = reads.windows(2).filter(|pair| pair[0] != pair[1]).count();
        assert!(changes <= 1);
        assert_eq!(reads[9], read_config_setting(&store.settings, &config(n), name, None));
    }
}

#[test]
fn reads_do_not_see_later_changes() {
    let name = AddressKey(address(8));
    for (epoch, newer) in [(5, true), (5, false), (9, true), (u64::MAX, false)] {
        let mut store = store();
        store.settings.insert(id(11), name, setting(epoch, newer, Some(false)));
        assert_eq!(
            read_config_setting(&store.settings, &config(11), name, Some(5)),
            Some(&false)
        );
    }
}

#[test]
fn other_fields_do_not_matter_to_a_read() {
    let mut other = store();
    other.settings.insert(id(11), AddressKey(address(9)), setting(1, false, None));
    other.settings.insert(id(10), AddressKey(address(8)), setting(1, false, None));
    let name = AddressKey(address(8));
    for epoch in [None, Some(5), Some(6)] {
        assert_eq!(
            read_config_setting(&other.settings, &config(11), name, epoch),
            read_config_setting(&store().settings, &config(11), name, epoch)
        );
    }
}

#[test]
fn settings_without_an_older_value_have_none_before_the_change() {
    let store = store();
    let read = |cur_epoch| {
        read_config_setting(&store.settings, &config(10), AddressKey(address(7)), cur_epoch)
    };
    assert_eq!(read(Some(6)), Some(&true));
    assert_eq!(read(Some(5)), None);
}

#[test]
fn missing_and_empty_settings_have_no_value() {
    let mut store = store();
    store.settings.insert(id(10), AddressKey(address(9)), Setting { data: None });
    assert_eq!(
        read_config_setting(&store.settings, &config(10), AddressKey(address(9)), None),
        None
    );
    assert_eq!(
        read_config_setting(&store.settings, &config(10), AddressKey(address(6)), None),
        None
    );
}

#[test]
fn settings_may_hold_any_value() {
    let mut limits: FieldTable<AddressKey, Setting<String>> = FieldTable::new();
    limits.insert(
        id(3),
        AddressKey(address(1)),
        Setting {
            data: Some(SettingData {
                newer_value_epoch: 2,
                newer_value: "high".to_string(),
                older_value_opt: Some("low".to_string()),
            }),
        },
    );
    assert_eq!(
        read_config_setting(&limits, &config(3), AddressKey(address(1)), Some(2)),
        Some(&"low".to_string())
    );
    assert_eq!(
        read_config_setting(&limits, &config(3), AddressKey(address(1)), Some(3)),
        Some(&"high".to_string())
    );
}

#[test]
fn addresses_are_denied_by_settings_that_say_so() {
    let store = store();
    assert!(check_address_denied_by_coin(&config(10), address(7), &store, None));
    assert!(check_address_denied_by_coin(&config(10), address(7), &store, Some(6)));
    assert!(!check_address_denied_by_coin(&config(10), address(7), &store, Some(5)));
    assert!(!check_address_denied_by_coin(&config(11), address(7), &store, None));
    assert!(check_address_denied_by_coin(&config(11), address(7), &store, Some(5)));
    assert!(!check_address_denied_by_coin(&config(10), address(8), &store, None));
}

#[test]
fn signing_is_refused_to_denied_addresses() {
    let store = store();
    assert_eq!(
        check_coin_deny_list_v2_during_signing(address(7), coins(&[USDX, EURX]), &store),
        denied(7, USDX)
    );
    assert_eq!(
        check_coin_deny_list_v2_during_signing(address(8), coins(&[USDX, EURX]), &store),
        denied(8, EURX)
    );
    assert_eq!(
        check_coin_deny_list_v2_during_signing(address(9), coins(&[USDX, EURX]), &store),
        Ok(())
    );
}

#[test]
fn the_first_refused_coin_type_is_named() {
    let mut store = store();
    store.settings.insert(id(11), AddressKey(address(7)), setting(6, true, None));
    assert_eq!(
        check_coin_deny_list_v2_during_signing(address(7), coins(&[USDX, EURX]), &store),
        denied(7, USDX)
    );
    assert_eq!(
        check_coin_deny_list_v2_during_signing(address(7), coins(&[EURX, USDX]), &store),
        denied(7, EURX)
    );
}

#[test]
fn further_coin_types_lift_no_denial() {
    let store = store();
    assert_eq!(
        check_coin_deny_list_v2_during_signing(address(7), coins(&[USDX, YENX]), &store),
        denied(7, USDX)
    );
}

#[test]
fn a_coin_type_without_configuration_ends_the_check() {
    let store = store();
    assert_eq!(
        check_coin_deny_list_v2_during_signing(address(7), coins(&[YENX, USDX]), &store),
        Ok(())
    );
    assert_eq!(
        check_coin_deny_list_v2_during_signing(address(8), coins(&[USDX, YENX, EURX]), &store),
        Ok(())
    );
}

#[test]
fn nothing_to_check_needs_no_deny_list() {
    let mut store = empty_store();
    store.deny_list_root = None;
    assert_eq!(check_coin_deny_list_v2_during_signing(address(7), vec![], &store), Ok(()));
}

#[test]
fn the_check_asks_for_one_object_at_a_time() {
    let check = SigningCheck::new(address(7), coins(&[USDX, EURX]));
    assert!(matches!(check.action(), SigningAction::ReadRoot));
    let check = check.on_root(Some(id(1)));
    match check.action() {
        SigningAction::ReadConfig { parent, name } => {
            assert_eq!(parent, id(1));
            assert_eq!(name, config_key(&USDX.to_string()));
        }
        other => panic!("{:?}", other),
    }
    let check = check.on_config(Some(config(10)));
    match check.action() {
        SigningAction::ReadSetting { parent, name } => {
            assert_eq!(parent, id(10));
            assert_eq!(name, AddressKey(address(7)));
        }
        other => panic!("{:?}", other),
    }
    let check = check.on_setting(None);
    assert!(matches!(check.action(), SigningAction::ReadRoot));
    let check = check.on_root(Some(id(1))).on_config(Some(config(11)));
    let check = check.on_setting(Some(&setting(1, true, None)));
    assert!(matches!(check.action(), SigningAction::Settle));
    assert_eq!(check.outcome(), denied(7, EURX));
}

#[test]
fn the_check_stops_without_a_deny_list() {
    let check = SigningCheck::new(address(7), coins(&[USDX])).on_root(None);
    assert!(matches!(check.action(), SigningAction::Abort));
}

#[test]
fn deny_caps_say_whether_all_may_be_paused() {
    let cap = DenyCapV2 { id: UID { id: id(4) }, allow_global_pause: true };
    assert_eq!(cap.id.object_id(), &id(4));
    assert!(cap.allow_global_pause);
}
