//! The check of the deny list before a transaction is signed.
//!
//! [`SigningCheck`] decides; it names one [`SigningAction`] at a time, and whoever runs it reads
//! what is asked for and hands it back. [`check_coin_deny_list_v2_during_signing`] runs it on an
//! [`ObjectStore`].
use vstd::prelude::*;
use crate::deny_list_v2::{
    AddressKey, Config, ConfigKey, ObjectStore, Setting, UserInputError, UserInputResult,
};
use crate::move_types::{ObjectID, SuiAddress};
use crate::object_store::DOFWrapper;

verus! {

/// How far the check has come with the current coin type, or how it ended.
#[derive(Clone, Copy, Debug, PartialEq, Eq)]
pub enum SigningPhase {
    /// The root object of the deny list is wanted.
    Root,
    /// The configuration of the coin type is wanted, which is a field of `root`.
    Config { root: ObjectID },
    /// The setting of the address is wanted, which is a field of `config`.
    Setting { config: Config },
    /// The transaction may be signed.
    Passed,
    /// The current coin type is denied to the address.
    Denied,
    /// There is no deny list.
    Aborted,
}

/// What has to be done next.
#[derive(Debug)]
pub enum SigningAction {
    /// Look up the root object of the deny list.
    ReadRoot,
    /// Read the dynamic field `name` of `parent`.
    ReadConfig { parent: ObjectID, name: DOFWrapper<ConfigKey> },
    /// Read the dynamic field `name` of `parent`.
    ReadSetting { parent: ObjectID, name: AddressKey },
    /// Nothing; the outcome is settled.
    Settle,
    /// Stop.
    Abort,
}

/// The check of one sender against the coin types of a transaction, one after the other.
#[derive(Debug)]
pub struct SigningCheck {
    address: SuiAddress,
    coin_types: Vec<String>,
    next: usize,
    phase: SigningPhase,
}

/// The state of a check, as contracts speak of it.
#[verifier::ext_equal]
pub struct SigningView {
    pub address: SuiAddress,
    pub coin_types: Seq<String>,
    pub next: int,
    pub phase: SigningPhase,
}

impl View for SigningCheck {
    type V = SigningView;

    closed spec fn view(&self) -> SigningView {
        SigningView {
            address: self.address,
            coin_types: self.coin_types@,
            next: self.next as int,
            phase: self.phase,
        }
    }
}

impl SigningView {
    /// Before the end of the check there is a current coin type, and where the outcome is a
    /// denial it is the one that is denied.
    pub open spec fn valid(self) -> bool {
        match self.phase {
            SigningPhase::Passed => true,
            _ => 0 <= self.next < self.coin_types.len(),
        }
    }

    /// The same check in another phase.
    pub open spec fn in_phase(self, phase: SigningPhase) -> SigningView {
        SigningView { phase, ..self }
    }

    /// The check goes on with the coin type `next`, or passes if there is none.
    pub open spec fn resume(self, next: int) -> SigningView {
        SigningView {
            next,
            phase: if next < self.coin_types.len() {
                SigningPhase::Root
            } else {
                SigningPhase::Passed
            },
            ..self
        }
    }

    /// A check that has read nothing.
    pub open spec fn start(address: SuiAddress, coin_types: Seq<String>) -> SigningView {
        (SigningView { address, coin_types, next: 0, phase: SigningPhase::Root }).resume(0)
    }

    /// The root object was looked up.
    pub open spec fn after_root(self, root: Option<ObjectID>) -> SigningView {
        match root {
            Some(root) => self.in_phase(SigningPhase::Config { root }),
            None => self.in_phase(SigningPhase::Aborted),
        }
    }

    /// The configuration was read. A coin type without one ends the check: it passes.
    pub open spec fn after_config(self, config: Option<Config>) -> SigningView {
        match config {
            Some(config) => self.in_phase(SigningPhase::Setting { config }),
            None => self.in_phase(SigningPhase::Passed),
        }
    }

    /// The setting was read. Its newest value counts.
    pub open spec fn after_setting(self, setting: Option<Setting<bool>>) -> SigningView {
        if crate::deny_list_v2::setting_value(setting, None) == Some(true) {
            self.in_phase(SigningPhase::Denied)
        } else {
            self.resume(self.next + 1)
        }
    }
}

impl SigningCheck {
    #[verifier::type_invariant]
    spec fn valid(self) -> bool {
        match self.phase {
            SigningPhase::Passed => true,
            _ => self.next < self.coin_types.len(),
        }
    }

    /// A check that has read nothing yet.
    pub fn new(address: SuiAddress, coin_types: Vec<String>) -> (check: Self)
        ensures
            check@ == SigningView::start(address, coin_types@),
    {
        let phase = if coin_types.len() > 0 {
            SigningPhase::Root
        } else {
            SigningPhase::Passed
        };
        SigningCheck { address, coin_types, next: 0, phase }
    }

    /// What has to be done next.
    pub fn action(&self) -> (action: SigningAction)
        ensures
            self@.valid(),
            match self@.phase {
                SigningPhase::Root => action is ReadRoot,
                SigningPhase::Config { root } => action matches SigningAction::ReadConfig {
                    parent,
                    name,
                } && {
                    &&& parent == root
                    &&& name@ == crate::deny_list_v2::config_name(self@.coin_types[self@.next]@)
                },
                SigningPhase::Setting { config } => action matches SigningAction::ReadSetting {
                    parent,
                    name,
                } && {
                    &&& parent == config.id.id
                    &&& name == AddressKey(self@.address)
                },
                SigningPhase::Passed | SigningPhase::Denied => action is Settle,
                SigningPhase::Aborted => action is Abort,
            },
    {
        proof {
            use_type_invariant(self);
        }
        match &self.phase {
            SigningPhase::Root => SigningAction::ReadRoot,
            SigningPhase::Config { root } => SigningAction::ReadConfig {
                parent: *root,
                name: crate::deny_list_v2::config_key(&self.coin_types[self.next]),
            },
            SigningPhase::Setting { config } => SigningAction::ReadSetting {
                parent: *config.id.object_id(),
                name: AddressKey(self.address),
            },
            SigningPhase::Passed => SigningAction::Settle,
            SigningPhase::Denied => SigningAction::Settle,
            SigningPhase::Aborted => SigningAction::Abort,
        }
    }

    /// Takes the root object of the deny list, or `None` where there is none.
    pub fn on_root(self, root: Option<ObjectID>) -> (check: Self)
        requires
            self@.phase is Root,
        ensures
            check@ == self@.after_root(root),
    {
        proof {
            use_type_invariant(&self);
        }
        let phase = match root {
            Some(root) => SigningPhase::Config { root },
            None => SigningPhase::Aborted,
        };
        SigningCheck {
            address: self.address,
            coin_types: self.coin_types,
            next: self.next,
            phase,
        }
    }

    /// Takes the configuration that was asked for, or `None` where there is none.
    pub fn on_config(self, config: Option<Config>) -> (check: Self)
        requires
            self@.phase is Config,
        ensures
            check@ == self@.after_config(config),
    {
        proof {
            use_type_invariant(&self);
        }
        let phase = match config {
            Some(config) => SigningPhase::Setting { config },
            None => SigningPhase::Passed,
        };
        SigningCheck {
            address: self.address,
            coin_types: self.coin_types,
            next: self.next,
            phase,
        }
    }

    /// Takes the setting that was asked for, or `None` where there is none.
    pub fn on_setting(self, setting: Option<&Setting<bool>>) -> (check: Self)
        requires
            self@.phase is Setting,
        ensures
            check@ == self@.after_setting(
                match setting {
                    Some(s) => Some(*s),
                    None => None,
                },
            ),
    {
        proof {
            use_type_invariant(&self);
        }
        let denied = match setting {
            Some(s) => match s.value_at(None) {
                Some(denied) => *denied,
                None => false,
            },
            None => false,
        };
        if denied {
            return SigningCheck {
                address: self.address,
                coin_types: self.coin_types,
                next: self.next,
                phase: SigningPhase::Denied,
            };
        }
        let next: usize = self.next + 1;
        let phase = if next < self.coin_types.len() {
            SigningPhase::Root
        } else {
            SigningPhase::Passed
        };
        SigningCheck { address: self.address, coin_types: self.coin_types, next, phase }
    }

    /// The outcome, once it is settled.
    pub fn outcome(self) -> (outcome: UserInputResult)
        requires
            self@.phase is Passed || self@.phase is Denied,
        ensures
            self@.phase is Passed ==> outcome == Ok::<(), UserInputError>(()),
            self@.phase is Denied ==> outcome == Err::<(), UserInputError>(
                UserInputError::AddressDeniedForCoin {
                    address: self@.address,
                    coin_type: self@.coin_types[self@.next],
                },
            ),
    {
        proof {
            use_type_invariant(&self);
        }
        match self.phase {
            SigningPhase::Denied => Err(
                UserInputError::AddressDeniedForCoin {
                    address: self.address,
                    coin_type: self.coin_types[self.next].clone(),
                },
            ),
            _ => Ok(()),
        }
    }
}

/// Turns a transaction down if the sender is denied one of its coin types. The coin types are
/// looked at in their order, and only as far as the first one that has no configuration.
pub fn check_coin_deny_list_v2_during_signing(
    address: SuiAddress,
    coin_types: Vec<String>,
    object_store: &ObjectStore,
) -> (result: UserInputResult)
    requires
        coin_types@.len() > 0 ==> object_store.deny_list_root is Some,
    ensures
        result is Err <==> exists|i: int|
            object_store.turned_down_at(address, coin_types@, i),
        result matches Err(error) ==> exists|i: int|
            object_store.turned_down_at(address, coin_types@, i) && error
                == (UserInputError::AddressDeniedForCoin { address, coin_type: coin_types@[i] }),
        result == object_store.verdict(address, coin_types@),
{
    let ghost coins = coin_types@;
    let mut check = SigningCheck::new(address, coin_types);
    loop
        invariant
            check@.address == address,
            check@.coin_types == coins,
            coins == coin_types@,
            coins.len() > 0 ==> object_store.deny_list_root is Some,
            0 <= check@.next <= coins.len(),
            check@.valid(),
            !(check@.phase is Aborted),
            forall|j: int|
                0 <= j < check@.next ==> object_store.admits(address, #[trigger] coins[j]@),
            check@.phase matches SigningPhase::Config { root } ==> object_store.deny_list_root
                == Some(root),
            check@.phase matches SigningPhase::Setting { config } ==> object_store.config_of(
                coins[check@.next]@,
            ) == Some(config),
            check@.phase is Passed ==> check@.next == coins.len() || object_store.config_of(
                coins[check@.next]@,
            ) is None,
            check@.phase is Denied ==> object_store.turned_down_at(address, coins, check@.next),
        decreases
                coins.len() - check@.next,
                match check@.phase {
                    SigningPhase::Root => 3int,
                    SigningPhase::Config { .. } => 2int,
                    SigningPhase::Setting { .. } => 1int,
                    _ => 0int,
                },
    {
        match check.action() {
            SigningAction::ReadRoot => {
                check = check.on_root(object_store.deny_list_root);
            },
            SigningAction::ReadConfig { parent, name } => {
                let config = match object_store.configs.get(&parent, &name) {
                    Some(config) => Some(*config),
                    None => None,
                };
                check = check.on_config(config);
            },
            SigningAction::ReadSetting { parent, name } => {
                check = check.on_setting(object_store.settings.get(&parent, &name));
            },
            SigningAction::Settle => {
                proof {
                    if check@.phase is Denied {
                        assert forall|i: int| #[trigger]
                            object_store.turned_down_at(address, coins, i) implies i
                            == check@.next by {
                            crate::deny_list_v2::law_one_coin_type_is_to_blame(
                                *object_store,
                                address,
                                coins,
                                i,
                                check@.next,
                            );
                        }
                    }
                    if check@.phase is Passed {
                        assert forall|i: int|
                            !object_store.turned_down_at(address, coins, i) by {
                            if object_store.turned_down_at(address, coins, i) {
                                assert(object_store.refuses(address, coins[i]@));
                                if i < check@.next {
                                    assert(object_store.admits(address, coins[i]@));
                                } else if check@.next < i {
                                    assert(object_store.admits(address, coins[check@.next]@));
                                }
                            }
                        }
                    }
                }
                return check.outcome();
            },
            SigningAction::Abort => vstd::pervasive::unreached(),
        }
    }
}

/// The states that a check can be in stay valid through every step.
pub proof fn law_checks_stay_valid(
    s: SigningView,
    root: Option<ObjectID>,
    config: Option<Config>,
    setting: Option<Setting<bool>>,
)
    requires
        s.valid(),
    ensures
        s.phase is Root ==> s.after_root(root).valid(),
        s.phase is Config ==> s.after_config(config).valid(),
        s.phase is Setting ==> s.after_setting(setting).valid(),
{
}

/// A transaction without coin types to check passes at once, whether there is a deny list or
/// not.
pub proof fn law_nothing_to_check_passes(address: SuiAddress, coin_types: Seq<String>)
    requires
        coin_types.len() == 0,
    ensures
        SigningView::start(address, coin_types).phase == SigningPhase::Passed,
{
}

/// The sender and the coin types of a check stay what they were.
pub proof fn law_checks_keep_their_subject(
    s: SigningView,
    root: Option<ObjectID>,
    config: Option<Config>,
    setting: Option<Setting<bool>>,
)
    ensures
        s.after_root(root).address == s.address,
        s.after_root(root).coin_types == s.coin_types,
        s.after_config(config).address == s.address,
        s.after_config(config).coin_types == s.coin_types,
        s.after_setting(setting).address == s.address,
        s.after_setting(setting).coin_types == s.coin_types,
{
}

/// A check begins with the first coin type, and passes at once if there is none.
pub proof fn law_checks_begin_with_the_first_coin_type(
    address: SuiAddress,
    coin_types: Vec<String>,
    check: SigningCheck,
)
    requires
        call_ensures(SigningCheck::new, (address, coin_types), check),
    ensures
        check@.address.bytes@ == address.bytes@,
        check@.coin_types == coin_types@,
        check@.next == 0,
        check@.phase is Passed <==> coin_types@.len() == 0,
        check@.phase is Root <==> coin_types@.len() > 0,
{
}

/// What is asked for is the root, then the field of the root under the name of the current coin
/// type, then the field of the configuration under the address; once the outcome is settled,
/// nothing.
pub proof fn law_checks_ask_for_root_configuration_and_setting(
    check: SigningCheck,
    action: SigningAction,
)
    requires
        call_ensures(SigningCheck::action, (&check,), action),
    ensures
        match check@.phase {
            SigningPhase::Root => action is ReadRoot,
            SigningPhase::Config { root } => {
                &&& action is ReadConfig
                &&& action->ReadConfig_parent.bytes@ == root.bytes@
                &&& action->ReadConfig_name.name.per_type_index == 0
                &&& action->ReadConfig_name.name.per_type_key@ == vstd::utf8::encode_utf8(
                    check@.coin_types[check@.next]@,
                )
            },
            SigningPhase::Setting { config } => {
                &&& action is ReadSetting
                &&& action->ReadSetting_parent.bytes@ == config.id.id.bytes@
                &&& action->ReadSetting_name.0.bytes@ == check@.address.bytes@
            },
            SigningPhase::Passed => action is Settle,
            SigningPhase::Denied => action is Settle,
            SigningPhase::Aborted => action is Abort,
        },
{
}

/// With the root, its field for the current coin type is wanted; without one, the check stops.
pub proof fn law_the_root_leads_to_the_configuration(
    check: SigningCheck,
    root: Option<ObjectID>,
    after: SigningCheck,
)
    requires
        check@.phase is Root,
        call_ensures(SigningCheck::on_root, (check, root), after),
    ensures
        after@.next == check@.next,
        after@.address == check@.address,
        after@.coin_types == check@.coin_types,
        root is None ==> after@.phase is Aborted,
        root matches Some(id) ==> {
            &&& after@.phase is Config
            &&& after@.phase->root == id
        },
{
}

/// With the configuration, its field for the address is wanted; a coin type without one ends the
/// check, which passes, whatever coin types follow.
pub proof fn law_the_configuration_leads_to_the_setting(
    check: SigningCheck,
    config: Option<Config>,
    after: SigningCheck,
)
    requires
        check@.phase is Config,
        call_ensures(SigningCheck::on_config, (check, config), after),
    ensures
        after@.next == check@.next,
        after@.address == check@.address,
        after@.coin_types == check@.coin_types,
        config is None ==> after@.phase is Passed,
        config matches Some(c) ==> {
            &&& after@.phase is Setting
            &&& after@.phase->config == c
        },
{
}

/// The current coin type is denied exactly if the setting is there, holds data, and its newest
/// value is true, whatever the older value and the epoch of the change. Otherwise the check goes
/// on with the next coin type, and passes if there is none.
pub proof fn law_the_newest_value_decides(
    check: SigningCheck,
    setting: Option<&Setting<bool>>,
    after: SigningCheck,
)
    requires
        check@.phase is Setting,
        call_ensures(SigningCheck::on_setting, (check, setting), after),
    ensures
        ({
            let denied = setting is Some && setting->0.data is Some
                && setting->0.data->0.newer_value;
            &&& after@.address == check@.address
            &&& after@.coin_types == check@.coin_types
            &&& after@.phase is Denied <==> denied
            &&& denied ==> after@.next == check@.next
            &&& !denied ==> after@.next == check@.next + 1
            &&& !denied && check@.next + 1 < check@.coin_types.len() ==> after@.phase is Root
            &&& !denied && check@.next + 1 >= check@.coin_types.len() ==> after@.phase is Passed
        }),
{
}

/// A denial names the sender and the current coin type.
pub proof fn law_denials_name_sender_and_coin_type(check: SigningCheck, outcome: UserInputResult)
    requires
        check@.phase is Passed || check@.phase is Denied,
        call_ensures(SigningCheck::outcome, (check,), outcome),
    ensures
        outcome is Ok <==> check@.phase is Passed,
        outcome matches Err(UserInputError::AddressDeniedForCoin { address, coin_type }) ==> {
            &&& address.bytes@ == check@.address.bytes@
            &&& coin_type@ == check@.coin_types[check@.next]@
        },
{
}

/// A transaction is turned down only on account of a coin type of it whose configuration has a
/// field for the sender with the newest value true; the coin types before that one have a
/// configuration, and none of them denies the sender by its newest value.
pub proof fn law_only_denied_coin_types_are_turned_down(
    address: SuiAddress,
    coin_types: Vec<String>,
    store: ObjectStore,
    root: ObjectID,
    result: UserInputResult,
)
    requires
        store.deny_list_root == Some(root),
        call_ensures(
            check_coin_deny_list_v2_during_signing,
            (address, coin_types, &store),
            result,
        ),
        result is Err,
    ensures
        exists|i: int|
            {
                let name = |j: int|
                    (root.bytes@, (0u64, vstd::utf8::encode_utf8(coin_types@[j]@)));
                let field = |j: int| (store.configs@[name(j)].id.id.bytes@, address.bytes@);
                let denied = |j: int|
                    store.settings@.contains_key(field(j)) && store.settings@[field(j)].data is Some
                        && store.settings@[field(j)].data->0.newer_value;
                &&& 0 <= i < coin_types@.len()
                &&& result == Err::<(), UserInputError>(
                    UserInputError::AddressDeniedForCoin {
                        address,
                        coin_type: #[trigger] coin_types@[i],
                    },
                )
                &&& forall|j: int|
                    0 <= j <= i ==> store.configs@.contains_key(#[trigger] name(j))
                &&& forall|j: int| 0 <= j < i ==> !#[trigger] denied(j)
                &&& denied(i)
            },
{
    let i = choose|i: int|
        store.turned_down_at(address, coin_types@, i) && result == Err::<(), UserInputError>(
            UserInputError::AddressDeniedForCoin { address, coin_type: coin_types@[i] },
        );
    let name = |j: int| (root.bytes@, (0u64, vstd::utf8::encode_utf8(coin_types@[j]@)));
    let field = |j: int| (store.configs@[name(j)].id.id.bytes@, address.bytes@);
    let denied = |j: int|
        store.settings@.contains_key(field(j)) && store.settings@[field(j)].data is Some
            && store.settings@[field(j)].data->0.newer_value;
    assert forall|j: int| 0 <= j <= i implies store.configs@.contains_key(#[trigger] name(j)) && (
    denied(j) <==> j == i) by {
        crate::deny_list_v2::law_the_newest_value_refuses(store, root, address, coin_types@[j]@);
        if j < i {
            assert(store.admits(address, coin_types@[j]@));
        }
    }
    assert(coin_types@[i] == coin_types@[i]);
    assert forall|j: int| 0 <= j < i implies !#[trigger] denied(j) by {
        assert(store.configs@.contains_key(name(j)));
    }
    assert(store.configs@.contains_key(name(i)));
}

/// A transaction that passes has no denied coin type as far as its coin types have a
/// configuration: no field for the sender, none with data, or one with the newest value false.
pub proof fn law_no_denied_coin_type_passes(
    address: SuiAddress,
    coin_types: Vec<String>,
    store: ObjectStore,
    root: ObjectID,
    result: UserInputResult,
    i: int,
)
    requires
        store.deny_list_root == Some(root),
        call_ensures(
            check_coin_deny_list_v2_during_signing,
            (address, coin_types, &store),
            result,
        ),
        result is Ok,
        0 <= i < coin_types@.len(),
        forall|j: int|
            0 <= j <= i ==> store.configs@.contains_key(
                (root.bytes@, (0u64, vstd::utf8::encode_utf8(#[trigger] coin_types@[j]@))),
            ),
    ensures
        ({
            let name = (root.bytes@, (0u64, vstd::utf8::encode_utf8(coin_types@[i]@)));
            let field = (store.configs@[name].id.id.bytes@, address.bytes@);
            store.settings@.contains_key(field) && store.settings@[field].data is Some
                ==> !store.settings@[field].data->0.newer_value
        }),
    decreases i,
{
    assert forall|j: int| 0 <= j < i implies store.admits(address, #[trigger] coin_types@[j]@) by {
        law_no_denied_coin_type_passes(address, coin_types, store, root, result, j);
        crate::deny_list_v2::law_the_newest_value_refuses(store, root, address, coin_types@[j]@);
        assert(store.configs@.contains_key(
            (root.bytes@, (0u64, vstd::utf8::encode_utf8(coin_types@[j]@))),
        ));
    }
    crate::deny_list_v2::law_the_newest_value_refuses(store, root, address, coin_types@[i]@);
    assert(store.configs@.contains_key(
        (root.bytes@, (0u64, vstd::utf8::encode_utf8(coin_types@[i]@))),
    ));
    assert(!store.turned_down_at(address, coin_types@, i));
}

/// A transaction with one coin type, which has a configuration, is turned down exactly if the
/// configuration has a field for the sender that holds data with the newest value true.
pub proof fn law_one_coin_type_is_judged_by_its_newest_value(
    address: SuiAddress,
    coin_types: Vec<String>,
    store: ObjectStore,
    root: ObjectID,
    config: Config,
    result: UserInputResult,
)
    requires
        store.deny_list_root == Some(root),
        coin_types@.len() == 1,
        store.configs@.contains_pair(
            (root.bytes@, (0u64, vstd::utf8::encode_utf8(coin_types@[0]@))),
            config,
        ),
        call_ensures(
            check_coin_deny_list_v2_during_signing,
            (address, coin_types, &store),
            result,
        ),
    ensures
        ({
            let field = (config.id.id.bytes@, address.bytes@);
            result is Err <==> store.settings@.contains_key(field)
                && store.settings@[field].data is Some && store.settings@[field].data->0.newer_value
        }),
{
    crate::deny_list_v2::law_the_newest_value_refuses(store, root, address, coin_types@[0]@);
    if store.refuses(address, coin_types@[0]@) {
        assert(store.turned_down_at(address, coin_types@, 0));
    }
    if result is Err {
        let i = choose|i: int| store.turned_down_at(address, coin_types@, i);
        assert(i == 0);
    }
}

/// Behind a coin type without a configuration nothing counts: a transaction that passes up to
/// there passes, whatever follows.
pub proof fn law_nothing_counts_behind_a_coin_type_without_configuration(
    address: SuiAddress,
    coin_types: Vec<String>,
    store: ObjectStore,
    root: ObjectID,
    result: UserInputResult,
    k: int,
)
    requires
        store.deny_list_root == Some(root),
        0 <= k < coin_types@.len(),
        !store.configs@.contains_key(
            (root.bytes@, (0u64, vstd::utf8::encode_utf8(coin_types@[k]@))),
        ),
        call_ensures(
            check_coin_deny_list_v2_during_signing,
            (address, coin_types, &store),
            result,
        ),
    ensures
        result is Err ==> exists|i: int|
            0 <= i < k && result == Err::<(), UserInputError>(
                UserInputError::AddressDeniedForCoin {
                    address,
                    coin_type: #[trigger] coin_types@[i],
                },
            ),
{
    crate::deny_list_v2::law_the_newest_value_refuses(store, root, address, coin_types@[k]@);
    if result is Err {
        let i = choose|i: int|
            store.turned_down_at(address, coin_types@, i) && result == Err::<(), UserInputError>(
                UserInputError::AddressDeniedForCoin { address, coin_type: coin_types@[i] },
            );
        if k < i {
            assert(store.admits(address, coin_types@[k]@));
        }
        assert(i < k);
    }
}

} // verus!
