//! The deny list of regulated coins: which addresses may not use which coin types.
use vstd::prelude::*;
use crate::move_types::{EpochId, MoveTypeTagTrait, ObjectID, SuiAddress, TypeTag, UID};
use crate::object_store::{DOFWrapper, FieldName, FieldTable};

verus! {

/// The index of the coin types among the kinds of types that the deny list knows.
pub const DENY_LIST_COIN_TYPE_INDEX: u64 = 0;

/// Rust representation of the Move type `0x2::config::Config`.
#[derive(Clone, Copy, Debug, PartialEq, Eq)]
pub struct Config {
    pub id: UID,
}

/// Rust representation of the Move type `0x2::config::Setting`.
#[derive(Clone, Debug)]
pub struct Setting<V> {
    pub data: Option<SettingData<V>>,
}

/// Rust representation of the Move type `0x2::config::SettingData`.
#[derive(Clone, Debug)]
pub struct SettingData<V> {
    pub newer_value_epoch: u64,
    pub newer_value: V,
    pub older_value_opt: Option<V>,
}

/// Rust representation of the Move type `0x2::coin::DenyCapV2`.
#[derive(Clone, Copy, Debug, PartialEq, Eq)]
pub struct DenyCapV2 {
    pub id: UID,
    pub allow_global_pause: bool,
}

/// Rust representation of the Move type `0x2::deny_list::ConfigKey`.
#[derive(Clone, Debug, PartialEq, Eq)]
pub struct ConfigKey {
    pub per_type_index: u64,
    pub per_type_key: Vec<u8>,
}

/// Rust representation of the Move type `0x2::deny_list::AddressKey`.
#[derive(Clone, Copy, Debug, PartialEq, Eq)]
pub struct AddressKey(pub SuiAddress);

impl MoveTypeTagTrait for ConfigKey {
    fn get_type_tag() -> (tag: TypeTag)
        ensures
            crate::move_types::is_framework_struct(tag, "deny_list"@, "ConfigKey"@),
    {
        crate::move_types::framework_struct("deny_list", "ConfigKey")
    }
}

impl MoveTypeTagTrait for AddressKey {
    fn get_type_tag() -> (tag: TypeTag)
        ensures
            crate::move_types::is_framework_struct(tag, "deny_list"@, "AddressKey"@),
    {
        crate::move_types::framework_struct("deny_list", "AddressKey")
    }
}

impl View for ConfigKey {
    type V = (u64, Seq<u8>);

    open spec fn view(&self) -> (u64, Seq<u8>) {
        (self.per_type_index, self.per_type_key@)
    }
}

impl View for AddressKey {
    type V = Seq<u8>;

    open spec fn view(&self) -> Seq<u8> {
        self.0@
    }
}

impl FieldName for ConfigKey {
    fn same(&self, other: &Self) -> (same: bool) {
        self.per_type_index == other.per_type_index && crate::move_types::same_bytes(
            self.per_type_key.as_slice(),
            other.per_type_key.as_slice(),
        )
    }
}

impl FieldName for AddressKey {
    fn same(&self, other: &Self) -> (same: bool) {
        crate::move_types::same_bytes(self.0.bytes.as_slice(), other.0.bytes.as_slice())
    }
}

/// The objects that the deny list is read from.
#[derive(Clone, Debug)]
pub struct ObjectStore {
    /// The root object of the deny list.
    pub deny_list_root: Option<ObjectID>,
    /// The fields that hold the configuration of a coin type.
    pub configs: FieldTable<DOFWrapper<ConfigKey>, Config>,
    /// The fields that say whether an address is denied.
    pub settings: FieldTable<AddressKey, Setting<bool>>,
}

/// Why a transaction is turned down.
#[derive(Clone, Debug, PartialEq, Eq)]
pub enum UserInputError {
    /// The sender may not use the coin type.
    AddressDeniedForCoin { address: SuiAddress, coin_type: String },
}

/// Whether a transaction is turned down.
pub type UserInputResult = Result<(), UserInputError>;

/// The value under a key, if there is one.
pub open spec fn lookup<K, V>(fields: Map<K, V>, key: K) -> Option<V> {
    if fields.contains_key(key) {
        Some(fields[key])
    } else {
        None
    }
}

/// The value of a setting. Without an epoch it is the newest one. With an epoch it is the one
/// that was in force before that epoch: the newer value if it was set earlier, else the older.
pub open spec fn setting_value<V>(
    setting: Option<Setting<V>>,
    cur_epoch: Option<EpochId>,
) -> Option<V> {
    match setting {
        Some(Setting { data: Some(data) }) => match cur_epoch {
            Some(epoch) if data.newer_value_epoch >= epoch => data.older_value_opt,
            _ => Some(data.newer_value),
        },
        _ => None,
    }
}

/// The value that the setting `name` of a configuration has among the fields of a store.
pub open spec fn setting_read<N, V>(
    fields: Map<(Seq<u8>, N), Setting<V>>,
    config: Config,
    name: N,
    cur_epoch: Option<EpochId>,
) -> Option<V> {
    setting_value(lookup(fields, (config.id.id@, name)), cur_epoch)
}

/// The name of the field that holds the configuration of a coin type.
pub open spec fn config_name(coin_type: Seq<char>) -> (u64, Seq<u8>) {
    (DENY_LIST_COIN_TYPE_INDEX, vstd::utf8::encode_utf8(coin_type))
}

impl ObjectStore {
    /// The configuration of a coin type.
    pub open spec fn config_of(self, coin_type: Seq<char>) -> Option<Config> {
        lookup(self.configs@, (self.deny_list_root->0@, config_name(coin_type)))
    }

    /// Whether the configuration of a coin type denies an address.
    pub open spec fn denies(
        self,
        config: Config,
        address: SuiAddress,
        cur_epoch: Option<EpochId>,
    ) -> bool {
        setting_read(self.settings@, config, address@, cur_epoch) == Some(true)
    }

    /// The coin type has a configuration, and it does not deny the address.
    pub open spec fn admits(self, address: SuiAddress, coin_type: Seq<char>) -> bool {
        self.config_of(coin_type) matches Some(config) && !self.denies(config, address, None)
    }

    /// The coin type has a configuration, and it denies the address.
    pub open spec fn refuses(self, address: SuiAddress, coin_type: Seq<char>) -> bool {
        self.config_of(coin_type) matches Some(config) && self.denies(config, address, None)
    }

    /// The coin type `i` of a list is the one on account of which a transaction is turned down:
    /// it is refused, and all before it are admitted.
    pub open spec fn turned_down_at(
        self,
        address: SuiAddress,
        coin_types: Seq<String>,
        i: int,
    ) -> bool {
        &&& 0 <= i < coin_types.len()
        &&& forall|j: int| 0 <= j < i ==> self.admits(address, #[trigger] coin_types[j]@)
        &&& self.refuses(address, coin_types[i]@)
    }

    /// What becomes of a transaction: it is turned down on account of the one coin type for which
    /// that holds, if there is one.
    pub open spec fn verdict(self, address: SuiAddress, coin_types: Seq<String>) -> UserInputResult {
        if exists|i: int| self.turned_down_at(address, coin_types, i) {
            let i = choose|i: int| self.turned_down_at(address, coin_types, i);
            Err(UserInputError::AddressDeniedForCoin { address, coin_type: coin_types[i] })
        } else {
            Ok(())
        }
    }
}

/// The name of the field that holds the configuration of a coin type.
pub fn config_key(coin_type: &String) -> (name: DOFWrapper<ConfigKey>)
    ensures
        name@ == config_name(coin_type@),
{
    DOFWrapper {
        name: ConfigKey {
            per_type_index: DENY_LIST_COIN_TYPE_INDEX,
            per_type_key: vstd::slice::slice_to_vec(coin_type.as_str().as_bytes()),
        },
    }
}

/// The configuration of a coin type in the deny list.
pub fn get_per_type_coin_deny_list_v2(coin_type: &String, object_store: &ObjectStore) -> (config:
    Option<Config>)
    requires
        object_store.deny_list_root is Some,
    ensures
        config == object_store.config_of(coin_type@),
{
    match &object_store.deny_list_root {
        Some(deny_list_root) => {
            let name = config_key(coin_type);
            match object_store.configs.get(deny_list_root, &name) {
                Some(config) => Some(*config),
                None => None,
            }
        },
        None => vstd::pervasive::unreached(),
    }
}

/// Whether the configuration of a coin type denies an address. An address without a setting is
/// not denied.
pub fn check_address_denied_by_coin(
    coin_deny_config: &Config,
    address: SuiAddress,
    object_store: &ObjectStore,
    cur_epoch: Option<EpochId>,
) -> (denied: bool)
    ensures
        denied == object_store.denies(*coin_deny_config, address, cur_epoch),
{
    let address_key = AddressKey(address);
    match read_config_setting(&object_store.settings, coin_deny_config, address_key, cur_epoch) {
        Some(denied) => *denied,
        None => false,
    }
}

/// Reads the value of the setting `setting_name` of a configuration.
///
/// If the setting is not found, there is no value. If `cur_epoch` is not given, the latest value
/// is wanted. If it is given, the value prior to that epoch is wanted: the older value if the
/// newer one was set in that epoch or later, else the newer one.
pub fn read_config_setting<'a, K, V>(
    settings: &'a FieldTable<K, Setting<V>>,
    config: &Config,
    setting_name: K,
    cur_epoch: Option<EpochId>,
) -> (value: Option<&'a V>) where K: MoveTypeTagTrait + FieldName
    ensures
        match setting_read(settings@, *config, setting_name@, cur_epoch) {
            Some(stored) => value matches Some(v) && *v == stored,
            None => value is None,
        },
{
    match settings.get(config.id.object_id(), &setting_name) {
        Some(setting) => setting.value_at(cur_epoch),
        None => None,
    }
}

impl<V> Setting<V> {
    /// The value of the setting, as [`setting_value`] says.
    pub fn value_at(&self, cur_epoch: Option<EpochId>) -> (value: Option<&V>)
        ensures
            match setting_value(Some(*self), cur_epoch) {
                Some(stored) => value matches Some(v) && *v == stored,
                None => value is None,
            },
    {
        match &self.data {
            None => None,
            Some(setting_data) => match cur_epoch {
                Some(epoch) => {
                    if setting_data.newer_value_epoch < epoch {
                        Some(&setting_data.newer_value)
                    } else {
                        setting_data.older_value_opt.as_ref()
                    }
                },
                None => Some(&setting_data.newer_value),
            },
        }
    }
}

/// No two coin types share a configuration's name.
pub proof fn law_coin_types_have_names_of_their_own(a: Seq<char>, b: Seq<char>)
    requires
        config_name(a) == config_name(b),
    ensures
        a == b,
{
    vstd::utf8::encode_utf8_decode_utf8(a);
    vstd::utf8::encode_utf8_decode_utf8(b);
}

/// The names of configurations and the names of settings are of different types, so that a field
/// of the one kind is never taken for one of the other.
pub proof fn law_names_differ_in_type(config_tag: TypeTag, address_tag: TypeTag)
    requires
        crate::move_types::is_framework_struct(config_tag, "deny_list"@, "ConfigKey"@),
        crate::move_types::is_framework_struct(address_tag, "deny_list"@, "AddressKey"@),
    ensures
        config_tag != address_tag,
{
    reveal_strlit("ConfigKey");
    reveal_strlit("AddressKey");
    assert("ConfigKey"@.len() != "AddressKey"@.len());
}

/// A change of a setting is in force from the epoch after it was made: later epochs see the
/// newest value, and so does whoever asks without an epoch; the epoch of the change and those
/// before it see the older value.
pub proof fn law_changes_take_effect_in_the_next_epoch<V>(data: SettingData<V>, epoch: EpochId)
    ensures
        setting_value(Some(Setting { data: Some(data) }), None) == Some(data.newer_value),
        epoch > data.newer_value_epoch ==> setting_value(
            Some(Setting { data: Some(data) }),
            Some(epoch),
        ) == setting_value(Some(Setting { data: Some(data) }), None),
        epoch <= data.newer_value_epoch ==> setting_value(
            Some(Setting { data: Some(data) }),
            Some(epoch),
        ) == data.older_value_opt,
{
}

/// As the epoch grows, what is read changes at most once, and then to what a read without an
/// epoch gives.
pub proof fn law_reads_change_at_most_once<N, V>(
    fields: Map<(Seq<u8>, N), Setting<V>>,
    config: Config,
    name: N,
    e1: EpochId,
    e2: EpochId,
    e3: EpochId,
)
    requires
        e1 <= e2 <= e3,
    ensures
        ({
            let early = setting_read(fields, config, name, Some(e1));
            let later = setting_read(fields, config, name, Some(e2));
            let latest = setting_read(fields, config, name, Some(e3));
            &&& early == later || later == latest
            &&& early != later ==> later == setting_read(fields, config, name, None)
        }),
{
}

/// A read for an epoch does not see what was set in that epoch or later: two settings with the
/// same older value, both changed in the epoch or later, read alike, whatever they were changed
/// to.
pub proof fn law_reads_do_not_see_later_changes<N, V>(
    fields1: Map<(Seq<u8>, N), Setting<V>>,
    fields2: Map<(Seq<u8>, N), Setting<V>>,
    config: Config,
    name: N,
    data1: SettingData<V>,
    data2: SettingData<V>,
    epoch: EpochId,
)
    requires
        lookup(fields1, (config.id.id@, name)) == Some(Setting { data: Some(data1) }),
        lookup(fields2, (config.id.id@, name)) == Some(Setting { data: Some(data2) }),
        data1.newer_value_epoch >= epoch,
        data2.newer_value_epoch >= epoch,
        data1.older_value_opt == data2.older_value_opt,
    ensures
        setting_read(fields1, config, name, Some(epoch)) == setting_read(
            fields2,
            config,
            name,
            Some(epoch),
        ),
{
}

/// Only the one field matters to a read: stores that agree on it read alike.
pub proof fn law_only_the_one_field_matters<N, V>(
    fields1: Map<(Seq<u8>, N), Setting<V>>,
    fields2: Map<(Seq<u8>, N), Setting<V>>,
    config: Config,
    name: N,
    cur_epoch: Option<EpochId>,
)
    requires
        lookup(fields1, (config.id.id@, name)) == lookup(fields2, (config.id.id@, name)),
    ensures
        setting_read(fields1, config, name, cur_epoch) == setting_read(
            fields2,
            config,
            name,
            cur_epoch,
        ),
{
}

/// An address is denied only by a setting that says so: without a setting, or with one that
/// holds no data, it is not denied in any epoch.
pub proof fn law_no_setting_no_denial(
    store: ObjectStore,
    config: Config,
    address: SuiAddress,
    cur_epoch: Option<EpochId>,
)
    ensures
        store.denies(config, address, cur_epoch) ==> {
            &&& store.settings@.contains_key((config.id.id@, address@))
            &&& store.settings@[(config.id.id@, address@)].data is Some
        },
{
}

/// At most one coin type of a list is the one on account of which a transaction is turned down.
pub proof fn law_one_coin_type_is_to_blame(
    store: ObjectStore,
    address: SuiAddress,
    coin_types: Seq<String>,
    i: int,
    j: int,
)
    requires
        store.turned_down_at(address, coin_types, i),
        store.turned_down_at(address, coin_types, j),
    ensures
        i == j,
{
    if i < j {
        assert(store.admits(address, coin_types[i]@));
    } else if j < i {
        assert(store.admits(address, coin_types[j]@));
    }
}

/// A transaction that is turned down stays so, on account of the same coin type, when further
/// coin types follow.
pub proof fn law_further_coin_types_lift_no_denial(
    store: ObjectStore,
    address: SuiAddress,
    coin_types: Seq<String>,
    further: Seq<String>,
    i: int,
)
    requires
        store.turned_down_at(address, coin_types, i),
    ensures
        store.turned_down_at(address, coin_types + further, i),
{
    let all = coin_types + further;
    assert forall|j: int| 0 <= j < i implies store.admits(address, #[trigger] all[j]@) by {
        assert(all[j] == coin_types[j]);
    }
    assert(all[i] == coin_types[i]);
}

/// Behind a coin type that has no configuration nothing is looked at: a transaction whose coin
/// types up to there are admitted is not turned down, whatever follows.
pub proof fn law_a_coin_type_without_configuration_ends_the_check(
    store: ObjectStore,
    address: SuiAddress,
    coin_types: Seq<String>,
    k: int,
    i: int,
)
    requires
        0 <= k < coin_types.len(),
        forall|j: int| 0 <= j < k ==> store.admits(address, #[trigger] coin_types[j]@),
        store.config_of(coin_types[k]@) is None,
    ensures
        !store.turned_down_at(address, coin_types, i),
{
    if store.turned_down_at(address, coin_types, i) {
        if i < k {
            assert(store.admits(address, coin_types[i]@));
        } else if k < i {
            assert(store.admits(address, coin_types[k]@));
        }
    }
}

/// Where a coin type is refused and all have a configuration, the first refused one is found.
proof fn lemma_first_refused(
    store: ObjectStore,
    address: SuiAddress,
    coin_types: Seq<String>,
    refused: int,
) -> (first: int)
    requires
        forall|j: int|
            0 <= j < coin_types.len() ==> store.config_of(#[trigger] coin_types[j]@) is Some,
        0 <= refused < coin_types.len(),
        store.refuses(address, coin_types[refused]@),
    ensures
        store.turned_down_at(address, coin_types, first),
    decreases refused,
{
    if exists|j: int| 0 <= j < refused && store.refuses(address, #[trigger] coin_types[j]@) {
        let j = choose|j: int|
            0 <= j < refused && store.refuses(address, #[trigger] coin_types[j]@);
        lemma_first_refused(store, address, coin_types, j)
    } else {
        assert forall|j: int| 0 <= j < refused implies store.admits(
            address,
            #[trigger] coin_types[j]@,
        ) by {
            assert(!store.refuses(address, coin_types[j]@));
        }
        refused
    }
}

/// A transaction all of whose coin types have a configuration is turned down exactly if one of
/// them is refused.
pub proof fn law_every_configured_coin_type_counts(
    store: ObjectStore,
    address: SuiAddress,
    coin_types: Seq<String>,
)
    requires
        forall|j: int|
            0 <= j < coin_types.len() ==> store.config_of(#[trigger] coin_types[j]@) is Some,
    ensures
        (exists|i: int| store.turned_down_at(address, coin_types, i)) <==> (exists|j: int|
            0 <= j < coin_types.len() && store.refuses(address, #[trigger] coin_types[j]@)),
{
    if exists|j: int|
        0 <= j < coin_types.len() && store.refuses(address, #[trigger] coin_types[j]@) {
        let j = choose|j: int|
            0 <= j < coin_types.len() && store.refuses(address, #[trigger] coin_types[j]@);
        let first = lemma_first_refused(store, address, coin_types, j);
        assert(store.turned_down_at(address, coin_types, first));
    }
    if exists|i: int| store.turned_down_at(address, coin_types, i) {
        let i = choose|i: int| store.turned_down_at(address, coin_types, i);
        assert(store.refuses(address, coin_types[i]@));
    }
}

/// The names of fields stand for the structs `ConfigKey` and `AddressKey` of the module
/// `deny_list` of the package `0x2`, which take no parameters.
pub proof fn law_names_are_structs_of_the_framework(config_tag: TypeTag, address_tag: TypeTag)
    requires
        call_ensures(<ConfigKey as MoveTypeTagTrait>::get_type_tag, (), config_tag),
        call_ensures(<AddressKey as MoveTypeTagTrait>::get_type_tag, (), address_tag),
    ensures
        config_tag matches TypeTag::Struct(c) && address_tag matches TypeTag::Struct(a) && {
            &&& c.module@ == "deny_list"@ && a.module@ == "deny_list"@
            &&& c.name@ == "ConfigKey"@ && a.name@ == "AddressKey"@
            &&& forall|i: int| 0 <= i < 31 ==> c.address[i] == 0 && a.address[i] == 0
            &&& c.address[31] == 2 && a.address[31] == 2
            &&& c.type_params@.len() == 0 && a.type_params@.len() == 0
        },
{
    let c = config_tag->Struct_0;
    let a = address_tag->Struct_0;
    assert forall|i: int| 0 <= i < 32 implies c.address[i] == (if i == 31 {
        2u8
    } else {
        0u8
    }) && a.address[i] == c.address[i] by {
        assert(c.address@[i] == crate::move_types::framework_address()[i]);
        assert(a.address@[i] == crate::move_types::framework_address()[i]);
    }
}

/// Two names of configurations are the same exactly if index and key are, and two names of
/// settings exactly if the addresses are, byte for byte.
pub proof fn law_names_are_told_apart(
    config1: ConfigKey,
    config2: ConfigKey,
    same_config: bool,
    address1: AddressKey,
    address2: AddressKey,
    same_address: bool,
)
    requires
        call_ensures(<ConfigKey as FieldName>::same, (&config1, &config2), same_config),
        call_ensures(<AddressKey as FieldName>::same, (&address1, &address2), same_address),
    ensures
        same_config <==> config1.per_type_index == config2.per_type_index && config1.per_type_key@
            == config2.per_type_key@,
        same_address <==> address1.0.bytes@ == address2.0.bytes@,
{
}

/// The name of the configuration of a coin type is that of the coin types' index and of the coin
/// type, which can be read back from it.
pub proof fn law_names_hold_the_coin_type(coin_type: String, name: DOFWrapper<ConfigKey>)
    requires
        call_ensures(config_key, (&coin_type,), name),
    ensures
        name.name.per_type_index == 0,
        vstd::utf8::valid_utf8(name.name.per_type_key@),
        vstd::utf8::decode_utf8(name.name.per_type_key@) == coin_type@,
{
    vstd::utf8::encode_utf8_decode_utf8(coin_type@);
    vstd::utf8::encode_utf8_valid_utf8(coin_type@);
}

/// The configuration of a coin type is the field of the root object of the deny list whose name
/// is the coin types' index and the bytes of the coin type; it has none only where there is no
/// such field.
pub proof fn law_configurations_are_fields_of_the_root(
    store: ObjectStore,
    root: ObjectID,
    coin_type: String,
    config: Option<Config>,
)
    requires
        store.deny_list_root == Some(root),
        call_ensures(get_per_type_coin_deny_list_v2, (&coin_type, &store), config),
    ensures
        ({
            let field = (root.bytes@, (0u64, vstd::utf8::encode_utf8(coin_type@)));
            &&& config is Some <==> store.configs@.contains_key(field)
            &&& config matches Some(c) ==> store.configs@[field] == c
            &&& store.config_of(coin_type@) == config
        }),
{
}

/// What is read of a setting is what is stored: the older value where an epoch is given and the
/// newer one was set in that epoch or later, else the newer one. Nothing is read where the
/// configuration has no such field, or the field holds no data.
pub proof fn law_reads_follow_the_stored_data<'a, K: MoveTypeTagTrait + FieldName, V>(
    settings: &'a FieldTable<K, Setting<V>>,
    config: Config,
    name: K,
    cur_epoch: Option<EpochId>,
    value: Option<&'a V>,
)
    requires
        call_ensures(
            read_config_setting::<K, V>,
            (settings, &config, name, cur_epoch),
            value,
        ),
    ensures
        ({
            let field = (config.id.id.bytes@, name@);
            if !settings@.contains_key(field) {
                value is None
            } else {
                match settings@[field].data {
                    None => value is None,
                    Some(data) => if cur_epoch is Some && data.newer_value_epoch >= cur_epoch->0 {
                        &&& value is Some <==> data.older_value_opt is Some
                        &&& value matches Some(v) ==> *v == data.older_value_opt->0
                    } else {
                        value matches Some(v) && *v == data.newer_value
                    },
                }
            }
        }),
{
}

/// The value of a setting is one of the two that it stores: before an epoch, the older one as
/// long as the newer one was not set yet; the newer one otherwise.
pub proof fn law_values_are_stored_values<'a, V>(
    setting: &'a Setting<V>,
    cur_epoch: Option<EpochId>,
    value: Option<&'a V>,
)
    requires
        call_ensures(Setting::<V>::value_at, (setting, cur_epoch), value),
    ensures
        match setting.data {
            None => value is None,
            Some(data) => if cur_epoch is Some && data.newer_value_epoch >= cur_epoch->0 {
                &&& value is Some <==> data.older_value_opt is Some
                &&& value matches Some(v) ==> *v == data.older_value_opt->0
            } else {
                value matches Some(v) && *v == data.newer_value
            },
        },
{
}

/// An address is denied exactly if the configuration has a field for it that says so: by the
/// older value where an epoch is given and the newer one was set in that epoch or later, by the
/// newer value otherwise.
pub proof fn law_denials_follow_the_stored_data(
    store: ObjectStore,
    config: Config,
    address: SuiAddress,
    cur_epoch: Option<EpochId>,
    denied: bool,
)
    requires
        call_ensures(
            check_address_denied_by_coin,
            (&config, address, &store, cur_epoch),
            denied,
        ),
    ensures
        ({
            let field = (config.id.id.bytes@, address.bytes@);
            if !store.settings@.contains_key(field) {
                !denied
            } else {
                match store.settings@[field].data {
                    None => !denied,
                    Some(data) => if cur_epoch is Some && data.newer_value_epoch >= cur_epoch->0 {
                        denied <==> data.older_value_opt == Some(true)
                    } else {
                        denied <==> data.newer_value
                    },
                }
            }
        }),
        denied == store.denies(config, address, cur_epoch),
{
}

/// A denial is in force from the epoch after the one in which it was made, and so is its
/// lifting: what was changed in an epoch makes no difference to who is denied in that epoch.
pub proof fn law_denials_change_with_the_next_epoch(
    before: ObjectStore,
    after: ObjectStore,
    config: Config,
    address: SuiAddress,
    epoch: EpochId,
    changed: EpochId,
    old_value: bool,
    new_value: bool,
    denied: bool,
)
    requires
        call_ensures(
            check_address_denied_by_coin,
            (&config, address, &after, Some(epoch)),
            denied,
        ),
        after.settings@ == before.settings@.insert(
            (config.id.id.bytes@, address.bytes@),
            Setting {
                data: Some(
                    SettingData {
                        newer_value_epoch: changed,
                        newer_value: new_value,
                        older_value_opt: Some(old_value),
                    },
                ),
            },
        ),
    ensures
        epoch <= changed ==> denied == old_value,
        epoch > changed ==> denied == new_value,
{
}

/// A coin type is refused to an address exactly if it has a configuration with a field for the
/// address whose newest value is true. It is admitted exactly if it has a configuration and is
/// not refused.
pub proof fn law_the_newest_value_refuses(
    store: ObjectStore,
    root: ObjectID,
    address: SuiAddress,
    coin_type: Seq<char>,
)
    requires
        store.deny_list_root == Some(root),
    ensures
        ({
            let name = (root.bytes@, (0u64, vstd::utf8::encode_utf8(coin_type)));
            let config = store.configs@[name];
            let field = (config.id.id.bytes@, address.bytes@);
            let says_so = store.settings@.contains_key(field) && store.settings@[field].data is Some
                && store.settings@[field].data->0.newer_value;
            &&& store.refuses(address, coin_type) <==> store.configs@.contains_key(name) && says_so
            &&& store.admits(address, coin_type) <==> store.configs@.contains_key(name)
                && !says_so
        }),
{
}

} // verus!
