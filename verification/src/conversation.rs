//! How the search wizards move on: the answers to each question, the
//! button presses that drive them, and the summaries they show.
use vstd::prelude::*;
use crate::models::SearchConfig;
use crate::text::{append_str, clone_opt, opt_view, str_eq, string_of, trim, trim_str};
use crate::wizard::{
    clear_wizard, get_edit_state, get_wizard_state, set_edit_step, set_wizard_step, start_edit_wizard,
    update_edit_data, update_wizard_data, DataView, EditState, EditStep, WizardData, WizardRegistry, WizardState,
    WizardStep,
};

verus! {

/// What the bot answers to a text message sent to the creation wizard.
pub enum WizardReply {
    /// The user has no creation wizard open.
    NotInWizard,
    /// The name was saved; the address is asked for next.
    NameSaved(String),
    /// The address was saved; the scraping type is offered next.
    UrlSaved,
    /// A button was expected, not text.
    ChooseOption,
    /// The keywords were saved; the selector is asked for next.
    KeywordsSaved,
    /// No selector was given for a generic page with an address: the page
    /// at this address is to be analysed, and `finish_selector` called
    /// with what was learned.
    LearnSelector(String),
    /// The selector was saved; the notification mode is offered next.
    SelectorSaved,
    /// The summary's buttons are expected.
    UseButtons,
}

/// What the bot answers, as plain values.
pub enum ReplySpec {
    NotInWizard,
    NameSaved(Seq<char>),
    UrlSaved,
    ChooseOption,
    KeywordsSaved,
    LearnSelector(Seq<char>),
    SelectorSaved,
    UseButtons,
}

impl View for WizardReply {
    type V = ReplySpec;

    open spec fn view(&self) -> ReplySpec {
        match self {
            WizardReply::NotInWizard => ReplySpec::NotInWizard,
            WizardReply::NameSaved(s) => ReplySpec::NameSaved(s@),
            WizardReply::UrlSaved => ReplySpec::UrlSaved,
            WizardReply::ChooseOption => ReplySpec::ChooseOption,
            WizardReply::KeywordsSaved => ReplySpec::KeywordsSaved,
            WizardReply::LearnSelector(s) => ReplySpec::LearnSelector(s@),
            WizardReply::SelectorSaved => ReplySpec::SelectorSaved,
            WizardReply::UseButtons => ReplySpec::UseButtons,
        }
    }
}

/// The selector given by an answer: none when the answer is `.`.
pub open spec fn selector_answer(text: Seq<char>) -> Option<Seq<char>> {
    if trim(text) == "."@ { None } else { Some(text) }
}

/// How a text answer moves a creation wizard on: the next step, the data
/// and the reply. Each question stores its answer and moves to the next
/// one; keywords that are blank are stored as none; a selector answer of
/// `.` is none, and for a generic page with an address it asks for the
/// page to be analysed instead of moving on. Steps that wait for a button
/// (and the filter step, which no text fills) change nothing.
pub open spec fn text_step(st: WizardState, text: Seq<char>) -> (WizardStep, DataView, ReplySpec) {
    let d = st.data@;
    match st.step {
        WizardStep::AskName => (WizardStep::AskUrl, DataView { name: Some(text), ..d }, ReplySpec::NameSaved(text)),
        WizardStep::AskUrl => (WizardStep::AskType, DataView { url: Some(text), ..d }, ReplySpec::UrlSaved),
        WizardStep::AskType => (st.step, d, ReplySpec::ChooseOption),
        WizardStep::AskKeywords => (
            WizardStep::AskSelector,
            DataView { keywords: if trim(text).len() == 0 { None } else { Some(text) }, ..d },
            ReplySpec::KeywordsSaved,
        ),
        WizardStep::AskSelector => {
            let sel = selector_answer(text);
            let ty = d.search_type.unwrap_or("generic_html"@);
            if sel is None && ty == "generic_html"@ && d.url is Some {
                (st.step, d, ReplySpec::LearnSelector(d.url.unwrap()))
            } else {
                (WizardStep::AskNotifyMode, DataView { css_selector: sel, ..d }, ReplySpec::SelectorSaved)
            }
        },
        WizardStep::AskFilters | WizardStep::AskNotifyMode => (st.step, d, ReplySpec::ChooseOption),
        WizardStep::Confirm => (st.step, d, ReplySpec::UseButtons),
    }
}

/// `m1` is `m0` with only the entry of `k` changed (and `k` present).
pub open spec fn only_changed<V>(m1: Map<i64, V>, m0: Map<i64, V>, k: i64) -> bool {
    &&& m1.dom() == m0.dom()
    &&& m0.dom().contains(k)
    &&& m1.remove(k) == m0.remove(k)
}

/// Stores new data and step for the creation wizard of `user_id`.
fn move_wizard(reg: &mut WizardRegistry, user_id: i64, data: WizardData, step: WizardStep)
    requires
        old(reg).wizards().dom().contains(user_id),
    ensures
        only_changed(final(reg).wizards(), old(reg).wizards(), user_id),
        final(reg).wizards()[user_id] == (WizardState { step, data, mode: old(reg).wizards()[user_id].mode }),
        final(reg).editors() == old(reg).editors(),
{
    update_wizard_data(reg, user_id, data);
    set_wizard_step(reg, user_id, step);
    proof {
        assert(reg.wizards().remove(user_id) =~= old(reg).wizards().remove(user_id));
        assert(reg.wizards().dom() =~= old(reg).wizards().dom());
    }
}

/// Handles a text message sent to the creation wizard of `user_id` (see
/// `text_step`).
pub fn on_wizard_text(reg: &mut WizardRegistry, user_id: i64, text: &str) -> (r: WizardReply)
    ensures
        final(reg).editors() == old(reg).editors(),
        !old(reg).wizards().dom().contains(user_id) ==> r is NotInWizard && final(reg).wizards() == old(reg).wizards(),
        old(reg).wizards().dom().contains(user_id) ==> {
            let st = old(reg).wizards()[user_id];
            let (step, data, reply) = text_step(st, text@);
            &&& r@ == reply
            &&& final(reg).wizards().dom() == old(reg).wizards().dom()
            &&& final(reg).wizards().remove(user_id) == old(reg).wizards().remove(user_id)
            &&& final(reg).wizards()[user_id].step == step
            &&& final(reg).wizards()[user_id].data@ == data
            &&& final(reg).wizards()[user_id].mode == st.mode
        },
{
    let st = match get_wizard_state(reg, user_id) {
        Some(st) => st,
        None => return WizardReply::NotInWizard,
    };
    let ghost old_map = reg.wizards();
    assert(st == old_map[user_id]);
    let mut data = st.data.duplicate();
    match st.step {
        WizardStep::AskName => {
            data.name = Some(string_of(text));
            move_wizard(reg, user_id, data, WizardStep::AskUrl);
            WizardReply::NameSaved(string_of(text))
        },
        WizardStep::AskUrl => {
            data.url = Some(string_of(text));
            move_wizard(reg, user_id, data, WizardStep::AskType);
            WizardReply::UrlSaved
        },
        WizardStep::AskKeywords => {
            let t = trim_str(text);
            data.keywords = if t.unicode_len() == 0 { None } else { Some(string_of(text)) };
            move_wizard(reg, user_id, data, WizardStep::AskSelector);
            WizardReply::KeywordsSaved
        },
        WizardStep::AskSelector => {
            let t = trim_str(text);
            let sel = if str_eq(t.as_str(), ".") { None } else { Some(string_of(text)) };
            let generic = match &st.data.search_type {
                Some(ty) => str_eq(ty.as_str(), "generic_html"),
                None => true,
            };
            proof {
                reveal_strlit("generic_html");
            }
            if sel.is_none() && generic && st.data.url.is_some() {
                let url = match &st.data.url {
                    Some(u) => u.clone(),
                    None => String::new(),
                };
                proof {
                    assert(reg.wizards() =~= old_map.remove(user_id).insert(user_id, st));
                }
                return WizardReply::LearnSelector(url);
            }
            data.css_selector = sel;
            move_wizard(reg, user_id, data, WizardStep::AskNotifyMode);
            WizardReply::SelectorSaved
        },
        WizardStep::AskType | WizardStep::AskFilters | WizardStep::AskNotifyMode => {
            proof {
                assert(reg.wizards() =~= old_map.remove(user_id).insert(user_id, st));
            }
            WizardReply::ChooseOption
        },
        WizardStep::Confirm => {
            proof {
                assert(reg.wizards() =~= old_map.remove(user_id).insert(user_id, st));
            }
            WizardReply::UseButtons
        },
    }
}

/// Stores the selector of the creation wizard of `user_id` (given, learned
/// or none) and moves on to the notification mode; nothing happens when the
/// user has no wizard open.
pub fn finish_selector(reg: &mut WizardRegistry, user_id: i64, selector: Option<String>)
    ensures
        final(reg).editors() == old(reg).editors(),
        !old(reg).wizards().dom().contains(user_id) ==> final(reg).wizards() == old(reg).wizards(),
        old(reg).wizards().dom().contains(user_id) ==> {
            let st = old(reg).wizards()[user_id];
            &&& only_changed(final(reg).wizards(), old(reg).wizards(), user_id)
            &&& final(reg).wizards()[user_id].step == WizardStep::AskNotifyMode
            &&& final(reg).wizards()[user_id].data@ == (DataView { css_selector: opt_view(selector), ..st.data@ })
            &&& final(reg).wizards()[user_id].mode == st.mode
        },
{
    if let Some(st) = get_wizard_state(reg, user_id) {
        let mut data = st.data.duplicate();
        data.css_selector = selector;
        move_wizard(reg, user_id, data, WizardStep::AskNotifyMode);
    }
}

/// A learned selector is used only with a confidence of at least 50.
pub fn learned_selector(confidence: i32, item_selector: Option<String>) -> (r: Option<String>)
    ensures
        opt_view(r) == (if confidence >= 50 { opt_view(item_selector) } else { None }),
{
    if confidence >= 50 { item_selector } else { None }
}

/// Stores the scraping type chosen in the creation wizard of `user_id` and
/// moves on to the keywords; tells whether the user had a wizard open.
pub fn on_wizard_type(reg: &mut WizardRegistry, user_id: i64, search_type: &str) -> (r: bool)
    ensures
        r == old(reg).wizards().dom().contains(user_id),
        final(reg).editors() == old(reg).editors(),
        !r ==> final(reg).wizards() == old(reg).wizards(),
        r ==> {
            let st = old(reg).wizards()[user_id];
            &&& only_changed(final(reg).wizards(), old(reg).wizards(), user_id)
            &&& final(reg).wizards()[user_id].step == WizardStep::AskKeywords
            &&& final(reg).wizards()[user_id].data@ == (DataView { search_type: Some(search_type@), ..st.data@ })
            &&& final(reg).wizards()[user_id].mode == st.mode
        },
{
    match get_wizard_state(reg, user_id) {
        Some(st) => {
            let mut data = st.data.duplicate();
            data.search_type = Some(string_of(search_type));
            move_wizard(reg, user_id, data, WizardStep::AskKeywords);
            true
        },
        None => false,
    }
}

/// Stores the notification mode chosen in the creation wizard of `user_id`
/// and moves on to the confirmation; gives the data to summarise, or none
/// when the user had no wizard open.
pub fn on_wizard_notify(reg: &mut WizardRegistry, user_id: i64, mode: &str) -> (r: Option<WizardData>)
    ensures
        r is Some == old(reg).wizards().dom().contains(user_id),
        final(reg).editors() == old(reg).editors(),
        r is None ==> final(reg).wizards() == old(reg).wizards(),
        r matches Some(d) ==> {
            let st = old(reg).wizards()[user_id];
            &&& d@ == (DataView { notify_mode: Some(mode@), ..st.data@ })
            &&& only_changed(final(reg).wizards(), old(reg).wizards(), user_id)
            &&& final(reg).wizards()[user_id].step == WizardStep::Confirm
            &&& final(reg).wizards()[user_id].data@ == d@
            &&& final(reg).wizards()[user_id].mode == st.mode
        },
{
    match get_wizard_state(reg, user_id) {
        Some(st) => {
            let mut data = st.data.duplicate();
            data.notify_mode = Some(string_of(mode));
            let shown = data.duplicate();
            move_wizard(reg, user_id, data, WizardStep::Confirm);
            Some(shown)
        },
        None => None,
    }
}

/// A search to create, as collected by the creation wizard.
pub struct NewSearch {
    pub name: String,
    pub url: String,
    pub search_type: String,
    pub keywords: Option<String>,
    pub css_selector: Option<String>,
    pub notify_mode: Option<String>,
    pub filters: Option<String>,
}

/// What confirming the creation wizard gives.
pub enum ConfirmOutcome {
    /// The user had no wizard open.
    NoWizard,
    /// The wizard had no address: nothing is created.
    MissingData,
    /// The search to create.
    Create(NewSearch),
}

/// Confirms the creation wizard of `user_id`: the wizard is closed, and
/// the search is created with `Sin nombre` for a missing name and
/// `generic_html` for a missing type, unless it has no address.
pub fn on_wizard_confirm(reg: &mut WizardRegistry, user_id: i64) -> (r: ConfirmOutcome)
    ensures
        final(reg).editors() == old(reg).editors(),
        final(reg).wizards() == old(reg).wizards().remove(user_id),
        !old(reg).wizards().dom().contains(user_id) ==> r is NoWizard,
        old(reg).wizards().dom().contains(user_id) ==> {
            let d = old(reg).wizards()[user_id].data@;
            if d.url.unwrap_or(Seq::<char>::empty()).len() == 0 {
                r is MissingData
            } else {
                r matches ConfirmOutcome::Create(n) && {
                    &&& n.name@ == d.name.unwrap_or("Sin nombre"@)
                    &&& n.url@ == d.url.unwrap_or(Seq::<char>::empty())
                    &&& n.search_type@ == d.search_type.unwrap_or("generic_html"@)
                    &&& opt_view(n.keywords) == d.keywords
                    &&& opt_view(n.css_selector) == d.css_selector
                    &&& opt_view(n.notify_mode) == d.notify_mode
                    &&& opt_view(n.filters) == d.filters
                }
            }
        },
{
    let st = match get_wizard_state(reg, user_id) {
        Some(st) => st,
        None => {
            clear_wizard(reg, user_id);
            proof {
                assert(reg.wizards() =~= old(reg).wizards().remove(user_id));
            }
            return ConfirmOutcome::NoWizard;
        },
    };
    clear_wizard(reg, user_id);
    let d = st.data;
    let url = match d.url {
        Some(u) => u,
        None => String::new(),
    };
    if url.unicode_len() == 0 {
        return ConfirmOutcome::MissingData;
    }
    let name = match d.name {
        Some(n) => n,
        None => string_of("Sin nombre"),
    };
    let search_type = match d.search_type {
        Some(t) => t,
        None => string_of("generic_html"),
    };
    ConfirmOutcome::Create(NewSearch {
        name,
        url,
        search_type,
        keywords: d.keywords,
        css_selector: d.css_selector,
        notify_mode: d.notify_mode,
        filters: d.filters,
    })
}

/// The data of a stored search, as the editing wizard starts with it.
pub open spec fn config_data(c: SearchConfig) -> DataView {
    DataView {
        name: Some(c.name@),
        url: Some(c.url@),
        search_type: Some(c.search_type@),
        keywords: opt_view(c.keywords),
        css_selector: opt_view(c.css_selector),
        notify_mode: Some(c.notify_mode@),
        filters: opt_view(c.filters),
    }
}

/// Opens the editing wizard of `user_id` on the stored search `config`;
/// a search of another user is refused (`None`) and nothing changes.
/// Gives the data to summarise.
pub fn on_edit_open(reg: &mut WizardRegistry, user_id: i64, config: &SearchConfig) -> (r: Option<WizardData>)
    ensures
        final(reg).wizards() == old(reg).wizards(),
        config.telegram_id != user_id ==> r is None && final(reg).editors() == old(reg).editors(),
        config.telegram_id == user_id ==> (r matches Some(d) && {
            &&& d@ == config_data(*config)
            &&& final(reg).editors().dom() == old(reg).editors().dom().insert(user_id)
            &&& final(reg).editors().remove(user_id) == old(reg).editors().remove(user_id)
            &&& final(reg).editors()[user_id].step == EditStep::ChooseField
            &&& final(reg).editors()[user_id].config_id == config.id
            &&& final(reg).editors()[user_id].data@ == d@
        }),
{
    if config.telegram_id != user_id {
        return None;
    }
    let data = WizardData {
        name: Some(config.name.clone()),
        url: Some(config.url.clone()),
        search_type: Some(config.search_type.clone()),
        keywords: clone_opt(&config.keywords),
        css_selector: clone_opt(&config.css_selector),
        notify_mode: Some(config.notify_mode.clone()),
        filters: clone_opt(&config.filters),
    };
    let shown = data.duplicate();
    start_edit_wizard(reg, user_id, config.id, data);
    proof {
        assert(reg.editors().remove(user_id) =~= old(reg).editors().remove(user_id));
        assert(reg.editors().dom() =~= old(reg).editors().dom().insert(user_id));
    }
    Some(shown)
}

/// The field an editing button asks for.
pub open spec fn field_step(field: Seq<char>) -> EditStep {
    if field == "name"@ {
        EditStep::EditName
    } else if field == "url"@ {
        EditStep::EditUrl
    } else if field == "keywords"@ {
        EditStep::EditKeywords
    } else if field == "selector"@ {
        EditStep::EditSelector
    } else if field == "notify"@ {
        EditStep::EditNotifyMode
    } else if field == "filters"@ {
        EditStep::EditFilters
    } else {
        EditStep::ChooseField
    }
}

/// The prompt shown when a field is chosen for editing.
pub open spec fn field_prompt(field: Seq<char>) -> Seq<char> {
    if field == "name"@ {
        "✏️ Escribe el nuevo <b>nombre</b> para esta búsqueda:"@
    } else if field == "url"@ {
        "✏️ Escribe la nueva <b>URL</b>:"@
    } else if field == "keywords"@ {
        "✏️ Escribe las nuevas <b>palabras clave</b> separadas por comas (o un punto <code>.</code> para omitir):"@
    } else if field == "selector"@ {
        "✏️ Escribe el nuevo <b>selector CSS</b> (o un punto <code>.</code> para omitir):"@
    } else if field == "notify"@ {
        "✏️ Elige el modo de notificación:"@
    } else if field == "filters"@ {
        "✏️ Escribe los <b>filtros</b>.\n\nFormato:\n• <code>+Baleares,+Mallorca</code> (solo resultados que contengan ambas)\n• <code>-Cáceres,-expirado</code> (excluir)\n• <code>+Baleares,-Cáceres</code> (combinado)\n\nEscribe un punto <code>.</code> para borrar filtros:"@
    } else {
        "✏️ Elige una opción:"@
    }
}

/// Reads an editing button's field (see `field_step`).
pub fn edit_step_for(field: &str) -> (r: EditStep)
    ensures
        r == field_step(field@),
{
    if str_eq(field, "name") {
        EditStep::EditName
    } else if str_eq(field, "url") {
        EditStep::EditUrl
    } else if str_eq(field, "keywords") {
        EditStep::EditKeywords
    } else if str_eq(field, "selector") {
        EditStep::EditSelector
    } else if str_eq(field, "notify") {
        EditStep::EditNotifyMode
    } else if str_eq(field, "filters") {
        EditStep::EditFilters
    } else {
        EditStep::ChooseField
    }
}

/// The prompt for an editing button's field (see `field_prompt`).
pub fn edit_prompt(field: &str) -> (r: &'static str)
    ensures
        r@ == field_prompt(field@),
{
    if str_eq(field, "name") {
        "✏️ Escribe el nuevo <b>nombre</b> para esta búsqueda:"
    } else if str_eq(field, "url") {
        "✏️ Escribe la nueva <b>URL</b>:"
    } else if str_eq(field, "keywords") {
        "✏️ Escribe las nuevas <b>palabras clave</b> separadas por comas (o un punto <code>.</code> para omitir):"
    } else if str_eq(field, "selector") {
        "✏️ Escribe el nuevo <b>selector CSS</b> (o un punto <code>.</code> para omitir):"
    } else if str_eq(field, "notify") {
        "✏️ Elige el modo de notificación:"
    } else if str_eq(field, "filters") {
        "✏️ Escribe los <b>filtros</b>.\n\nFormato:\n• <code>+Baleares,+Mallorca</code> (solo resultados que contengan ambas)\n• <code>-Cáceres,-expirado</code> (excluir)\n• <code>+Baleares,-Cáceres</code> (combinado)\n\nEscribe un punto <code>.</code> para borrar filtros:"
    } else {
        "✏️ Elige una opción:"
    }
}

/// Moves the editing wizard of `user_id` to the step of the chosen field
/// (`menu` goes back to the field choice); gives the wizard as it was, or
/// none when the user has no editing wizard open.
pub fn on_edit_field(reg: &mut WizardRegistry, user_id: i64, field: &str) -> (r: Option<EditState>)
    ensures
        final(reg).wizards() == old(reg).wizards(),
        r is Some == old(reg).editors().dom().contains(user_id),
        r is None ==> final(reg).editors() == old(reg).editors(),
        r matches Some(e) ==> {
            &&& e == old(reg).editors()[user_id]
            &&& final(reg).editors() == old(reg).editors().insert(
                user_id,
                EditState { step: if field@ == "menu"@ { EditStep::ChooseField } else { field_step(field@) }, ..e },
            )
        },
{
    match get_edit_state(reg, user_id) {
        Some(e) => {
            let step = if str_eq(field, "menu") { EditStep::ChooseField } else { edit_step_for(field) };
            set_edit_step(reg, user_id, step);
            Some(e)
        },
        None => None,
    }
}

/// Stores the notification mode chosen for the edited search of `user_id`
/// and moves on to the confirmation; gives the data to summarise, or none
/// when the user has no editing wizard open.
pub fn on_edit_notify(reg: &mut WizardRegistry, user_id: i64, mode: &str) -> (r: Option<WizardData>)
    ensures
        final(reg).wizards() == old(reg).wizards(),
        r is Some == old(reg).editors().dom().contains(user_id),
        r is None ==> final(reg).editors() == old(reg).editors(),
        r matches Some(d) ==> {
            let e = old(reg).editors()[user_id];
            &&& d@ == (DataView { notify_mode: Some(mode@), ..e.data@ })
            &&& final(reg).editors().dom() == old(reg).editors().dom()
            &&& final(reg).editors().remove(user_id) == old(reg).editors().remove(user_id)
            &&& final(reg).editors()[user_id].step == EditStep::Confirm
            &&& final(reg).editors()[user_id].config_id == e.config_id
            &&& final(reg).editors()[user_id].data@ == d@
        },
{
    match get_edit_state(reg, user_id) {
        Some(e) => {
            let mut data = e.data.duplicate();
            data.notify_mode = Some(string_of(mode));
            let shown = data.duplicate();
            update_edit_data(reg, user_id, data);
            set_edit_step(reg, user_id, EditStep::Confirm);
            proof {
                assert(reg.editors().remove(user_id) =~= old(reg).editors().remove(user_id));
                assert(reg.editors().dom() =~= old(reg).editors().dom());
            }
            Some(shown)
        },
        None => None,
    }
}

} // verus!
