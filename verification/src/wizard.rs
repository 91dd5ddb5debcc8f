//! Per-user conversation state for creating and editing searches.
use vstd::prelude::*;
use dashmap::DashMap;
use crate::text::opt_view;

verus! {

/// Steps of the search-creation conversation.
#[derive(Debug, Clone, Copy, PartialEq, Eq, Structural)]
pub enum WizardStep {
    AskName,
    AskUrl,
    AskType,
    AskKeywords,
    AskSelector,
    AskFilters,
    AskNotifyMode,
    Confirm,
}

/// Steps of the search-editing conversation.
#[derive(Debug, Clone, Copy, PartialEq, Eq, Structural)]
pub enum EditStep {
    ChooseField,
    EditName,
    EditUrl,
    EditKeywords,
    EditSelector,
    EditNotifyMode,
    EditFilters,
    Confirm,
}

/// The fields of a search collected so far.
#[derive(Debug, Clone)]
pub struct WizardData {
    pub name: Option<String>,
    pub url: Option<String>,
    pub search_type: Option<String>,
    pub keywords: Option<String>,
    pub css_selector: Option<String>,
    pub notify_mode: Option<String>,
    pub filters: Option<String>,
}

/// Whether a conversation creates a search or edits an existing one.
#[derive(Debug, Clone, Copy, PartialEq, Eq, Structural)]
pub enum WizardMode {
    Create,
    Edit { config_id: i64 },
}

/// A creation conversation in progress.
#[derive(Debug, Clone)]
pub struct WizardState {
    pub step: WizardStep,
    pub data: WizardData,
    pub mode: WizardMode,
}

/// An editing conversation in progress.
#[derive(Debug, Clone)]
pub struct EditState {
    pub step: EditStep,
    pub config_id: i64,
    pub data: WizardData,
}

/// What the data of a conversation holds.
pub struct DataView {
    pub name: Option<Seq<char>>,
    pub url: Option<Seq<char>>,
    pub search_type: Option<Seq<char>>,
    pub keywords: Option<Seq<char>>,
    pub css_selector: Option<Seq<char>>,
    pub notify_mode: Option<Seq<char>>,
    pub filters: Option<Seq<char>>,
}

impl View for WizardData {
    type V = DataView;

    open spec fn view(&self) -> DataView {
        DataView {
            name: opt_view(self.name),
            url: opt_view(self.url),
            search_type: opt_view(self.search_type),
            keywords: opt_view(self.keywords),
            css_selector: opt_view(self.css_selector),
            notify_mode: opt_view(self.notify_mode),
            filters: opt_view(self.filters),
        }
    }
}

impl WizardData {
    /// A copy of the data.
    pub fn duplicate(&self) -> (r: WizardData)
        ensures
            r@ == self@,
    {
        WizardData {
            name: crate::text::clone_opt(&self.name),
            url: crate::text::clone_opt(&self.url),
            search_type: crate::text::clone_opt(&self.search_type),
            keywords: crate::text::clone_opt(&self.keywords),
            css_selector: crate::text::clone_opt(&self.css_selector),
            notify_mode: crate::text::clone_opt(&self.notify_mode),
            filters: crate::text::clone_opt(&self.filters),
        }
    }

    /// Data with no field set.
    pub open spec fn spec_blank() -> WizardData {
        WizardData {
            name: None,
            url: None,
            search_type: None,
            keywords: None,
            css_selector: None,
            notify_mode: None,
            filters: None,
        }
    }

    /// Data with no field set.
    pub fn blank() -> (r: WizardData)
        ensures
            r == WizardData::spec_blank(),
    {
        WizardData {
            name: None,
            url: None,
            search_type: None,
            keywords: None,
            css_selector: None,
            notify_mode: None,
            filters: None,
        }
    }
}

impl Default for WizardData {
    fn default() -> (r: WizardData)
        ensures
            r == WizardData::spec_blank(),
    {
        WizardData::blank()
    }
}

#[verifier::external_type_specification]
#[verifier::external_body]
#[verifier::reject_recursive_types(K)]
#[verifier::reject_recursive_types(V)]
#[verifier::reject_recursive_types(S)]
pub struct ExDashMap<K, V, S>(DashMap<K, V, S>);

/// Creation conversations keyed by user.
pub type WizardMap = DashMap<i64, WizardState>;

/// Editing conversations keyed by user.
pub type EditMap = DashMap<i64, EditState>;

/// What a map of creation conversations holds.
pub uninterp spec fn wizard_entries(m: WizardMap) -> Map<i64, WizardState>;

/// What a map of editing conversations holds.
pub uninterp spec fn edit_entries(m: EditMap) -> Map<i64, EditState>;

/// Calls `DashMap::new`: an empty map.
#[verifier::external_body]
fn new_wizard_map() -> (r: WizardMap)
    ensures
        wizard_entries(r) =~= Map::empty(),
{
    DashMap::new()
}

/// Calls `DashMap::new`: an empty map.
#[verifier::external_body]
fn new_edit_map() -> (r: EditMap)
    ensures
        edit_entries(r) =~= Map::empty(),
{
    DashMap::new()
}

/// Calls `DashMap::insert`: the key now maps to the value, other keys are
/// unchanged.
#[verifier::external_body]
fn wizard_map_insert(m: &mut WizardMap, k: i64, v: WizardState)
    ensures
        wizard_entries(*final(m)) == wizard_entries(*old(m)).insert(k, v),
{
    m.insert(k, v);
}

/// Calls `DashMap::insert`: the key now maps to the value, other keys are
/// unchanged.
#[verifier::external_body]
fn edit_map_insert(m: &mut EditMap, k: i64, v: EditState)
    ensures
        edit_entries(*final(m)) == edit_entries(*old(m)).insert(k, v),
{
    m.insert(k, v);
}

/// Calls `DashMap::get` and clones the entry found: the value stored under
/// the key, if any.
#[verifier::external_body]
fn wizard_map_get(m: &WizardMap, k: i64) -> (r: Option<WizardState>)
    ensures
        r == (if wizard_entries(*m).dom().contains(k) {
            Some(wizard_entries(*m)[k])
        } else {
            None
        }),
{
    m.get(&k).map(|e| e.clone())
}

/// Calls `DashMap::get` and clones the entry found: the value stored under
/// the key, if any.
#[verifier::external_body]
fn edit_map_get(m: &EditMap, k: i64) -> (r: Option<EditState>)
    ensures
        r == (if edit_entries(*m).dom().contains(k) {
            Some(edit_entries(*m)[k])
        } else {
            None
        }),
{
    m.get(&k).map(|e| e.clone())
}

/// Calls `DashMap::remove`: the key no longer has an entry, other keys are
/// unchanged.
#[verifier::external_body]
fn wizard_map_remove(m: &mut WizardMap, k: i64)
    ensures
        wizard_entries(*final(m)) == wizard_entries(*old(m)).remove(k),
{
    m.remove(&k);
}

/// Calls `DashMap::remove`: the key no longer has an entry, other keys are
/// unchanged.
#[verifier::external_body]
fn edit_map_remove(m: &mut EditMap, k: i64)
    ensures
        edit_entries(*final(m)) == edit_entries(*old(m)).remove(k),
{
    m.remove(&k);
}

/// Calls `DashMap::alter` with `with_wizard_change`: an existing entry is
/// replaced by the changed one, an absent key stays absent.
#[verifier::external_body]
fn wizard_map_alter(m: &mut WizardMap, k: i64, change: WizardChange)
    ensures
        wizard_entries(*final(m)) == (if wizard_entries(*old(m)).dom().contains(k) {
            wizard_entries(*old(m)).insert(k, changed_wizard(wizard_entries(*old(m))[k], change))
        } else {
            wizard_entries(*old(m))
        }),
{
    m.alter(&k, |_, st| with_wizard_change(st, change));
}

/// Calls `DashMap::alter` with `with_edit_change`: an existing entry is
/// replaced by the changed one, an absent key stays absent.
#[verifier::external_body]
fn edit_map_alter(m: &mut EditMap, k: i64, change: EditChange)
    ensures
        edit_entries(*final(m)) == (if edit_entries(*old(m)).dom().contains(k) {
            edit_entries(*old(m)).insert(k, changed_edit(edit_entries(*old(m))[k], change))
        } else {
            edit_entries(*old(m))
        }),
{
    m.alter(&k, |_, st| with_edit_change(st, change));
}

/// A change to a creation conversation.
pub enum WizardChange {
    Data(WizardData),
    Step(WizardStep),
}

/// A change to an editing conversation.
pub enum EditChange {
    Data(WizardData),
    Step(EditStep),
}

pub open spec fn changed_wizard(st: WizardState, change: WizardChange) -> WizardState {
    match change {
        WizardChange::Data(d) => WizardState { data: d, ..st },
        WizardChange::Step(s) => WizardState { step: s, ..st },
    }
}

pub open spec fn changed_edit(st: EditState, change: EditChange) -> EditState {
    match change {
        EditChange::Data(d) => EditState { data: d, ..st },
        EditChange::Step(s) => EditState { step: s, ..st },
    }
}

/// Applies a change to a creation conversation.
pub fn with_wizard_change(st: WizardState, change: WizardChange) -> (r: WizardState)
    ensures
        r == changed_wizard(st, change),
{
    match change {
        WizardChange::Data(d) => WizardState { step: st.step, data: d, mode: st.mode },
        WizardChange::Step(s) => WizardState { step: s, data: st.data, mode: st.mode },
    }
}

/// Applies a change to an editing conversation.
pub fn with_edit_change(st: EditState, change: EditChange) -> (r: EditState)
    ensures
        r == changed_edit(st, change),
{
    match change {
        EditChange::Data(d) => EditState { step: st.step, config_id: st.config_id, data: d },
        EditChange::Step(s) => EditState { step: s, config_id: st.config_id, data: st.data },
    }
}

/// The conversations of all users: creation and editing are kept apart.
pub struct WizardRegistry {
    wizards: WizardMap,
    editors: EditMap,
}

impl WizardRegistry {
    /// Creation conversations by user.
    pub closed spec fn wizards(&self) -> Map<i64, WizardState> {
        wizard_entries(self.wizards)
    }

    /// Editing conversations by user.
    pub closed spec fn editors(&self) -> Map<i64, EditState> {
        edit_entries(self.editors)
    }

    /// A registry with no conversation.
    pub fn new() -> (r: Self)
        ensures
            r.wizards() == Map::<i64, WizardState>::empty(),
            r.editors() == Map::<i64, EditState>::empty(),
    {
        WizardRegistry { wizards: new_wizard_map(), editors: new_edit_map() }
    }
}

/// The state a new creation conversation starts in.
pub open spec fn fresh_wizard() -> WizardState {
    WizardState { step: WizardStep::AskName, data: WizardData::spec_blank(), mode: WizardMode::Create }
}

/// Starts (or restarts) a creation conversation for `user_id` at the name
/// step, with no data, in creation mode.
pub fn start_wizard(reg: &mut WizardRegistry, user_id: i64)
    ensures
        final(reg).wizards() == old(reg).wizards().insert(user_id, fresh_wizard()),
        final(reg).editors() == old(reg).editors(),
{
    let st = WizardState { step: WizardStep::AskName, data: WizardData::blank(), mode: WizardMode::Create };
    wizard_map_insert(&mut reg.wizards, user_id, st);
}

/// Starts (or restarts) an editing conversation for `user_id` on search
/// `config_id`, at the field choice, with the search's current data.
pub fn start_edit_wizard(reg: &mut WizardRegistry, user_id: i64, config_id: i64, current_data: WizardData)
    ensures
        final(reg).editors() == old(reg).editors().insert(
            user_id,
            EditState { step: EditStep::ChooseField, config_id, data: current_data },
        ),
        final(reg).wizards() == old(reg).wizards(),
{
    let st = EditState { step: EditStep::ChooseField, config_id, data: current_data };
    edit_map_insert(&mut reg.editors, user_id, st);
}

/// The creation conversation of `user_id`, if any.
pub fn get_wizard_state(reg: &WizardRegistry, user_id: i64) -> (r: Option<WizardState>)
    ensures
        r == (if reg.wizards().dom().contains(user_id) {
            Some(reg.wizards()[user_id])
        } else {
            None
        }),
{
    wizard_map_get(&reg.wizards, user_id)
}

/// The editing conversation of `user_id`, if any.
pub fn get_edit_state(reg: &WizardRegistry, user_id: i64) -> (r: Option<EditState>)
    ensures
        r == (if reg.editors().dom().contains(user_id) {
            Some(reg.editors()[user_id])
        } else {
            None
        }),
{
    edit_map_get(&reg.editors, user_id)
}

/// Replaces the data of the creation conversation of `user_id`; does nothing
/// when there is none.
pub fn update_wizard_data(reg: &mut WizardRegistry, user_id: i64, data: WizardData)
    ensures
        final(reg).wizards() == (if old(reg).wizards().dom().contains(user_id) {
            old(reg).wizards().insert(user_id, WizardState { data, ..old(reg).wizards()[user_id] })
        } else {
            old(reg).wizards()
        }),
        final(reg).editors() == old(reg).editors(),
{
    wizard_map_alter(&mut reg.wizards, user_id, WizardChange::Data(data));
}

/// Replaces the data of the editing conversation of `user_id`; does nothing
/// when there is none.
pub fn update_edit_data(reg: &mut WizardRegistry, user_id: i64, data: WizardData)
    ensures
        final(reg).editors() == (if old(reg).editors().dom().contains(user_id) {
            old(reg).editors().insert(user_id, EditState { data, ..old(reg).editors()[user_id] })
        } else {
            old(reg).editors()
        }),
        final(reg).wizards() == old(reg).wizards(),
{
    edit_map_alter(&mut reg.editors, user_id, EditChange::Data(data));
}

/// Moves the creation conversation of `user_id` to `step`; does nothing when
/// there is none.
pub fn set_wizard_step(reg: &mut WizardRegistry, user_id: i64, step: WizardStep)
    ensures
        final(reg).wizards() == (if old(reg).wizards().dom().contains(user_id) {
            old(reg).wizards().insert(user_id, WizardState { step, ..old(reg).wizards()[user_id] })
        } else {
            old(reg).wizards()
        }),
        final(reg).editors() == old(reg).editors(),
{
    wizard_map_alter(&mut reg.wizards, user_id, WizardChange::Step(step));
}

/// Moves the editing conversation of `user_id` to `step`; does nothing when
/// there is none.
pub fn set_edit_step(reg: &mut WizardRegistry, user_id: i64, step: EditStep)
    ensures
        final(reg).editors() == (if old(reg).editors().dom().contains(user_id) {
            old(reg).editors().insert(user_id, EditState { step, ..old(reg).editors()[user_id] })
        } else {
            old(reg).editors()
        }),
        final(reg).wizards() == old(reg).wizards(),
{
    edit_map_alter(&mut reg.editors, user_id, EditChange::Step(step));
}

/// Ends the creation conversation of `user_id`.
pub fn clear_wizard(reg: &mut WizardRegistry, user_id: i64)
    ensures
        final(reg).wizards() == old(reg).wizards().remove(user_id),
        final(reg).editors() == old(reg).editors(),
{
    wizard_map_remove(&mut reg.wizards, user_id);
}

/// Ends the editing conversation of `user_id`.
pub fn clear_editor(reg: &mut WizardRegistry, user_id: i64)
    ensures
        final(reg).editors() == old(reg).editors().remove(user_id),
        final(reg).wizards() == old(reg).wizards(),
{
    edit_map_remove(&mut reg.editors, user_id);
}


/// After a creation wizard is started, the user's state is the fresh one.
pub proof fn lemma_get_after_start(before: Map<i64, WizardState>, user_id: i64)
    ensures
        before.insert(user_id, fresh_wizard()).dom().contains(user_id),
        before.insert(user_id, fresh_wizard())[user_id] == fresh_wizard(),
{
}

/// After a creation wizard is cleared, the user has none.
pub proof fn lemma_get_after_clear(before: Map<i64, WizardState>, user_id: i64)
    ensures
        !before.remove(user_id).dom().contains(user_id),
{
}

/// Starting, changing or clearing the wizard of one user leaves every
/// other user's wizard as it was.
pub proof fn lemma_users_independent(before: Map<i64, WizardState>, user_id: i64, other: i64, st: WizardState)
    requires
        user_id != other,
    ensures
        before.insert(user_id, st).dom().contains(other) == before.dom().contains(other),
        before.dom().contains(other) ==> before.insert(user_id, st)[other] == before[other],
        before.remove(user_id).dom().contains(other) == before.dom().contains(other),
        before.dom().contains(other) ==> before.remove(user_id)[other] == before[other],
{
}

} // verus!
