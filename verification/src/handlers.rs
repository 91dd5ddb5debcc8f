//! What the Telegram bot decides: how button presses and commands are read,
//! how the search wizards move on, and the keyboards and texts it sends.
use vstd::prelude::*;
use crate::num::{int_text, lemma_int_text_parses, parse_i32, parse_i64, parsed_i32, parsed_i64, fmt_i64};
use crate::text::{
    append_str, from_chars, slice_chars, split, split_chars, starts_with, str_eq, str_starts_with, string_of,
    to_chars, trim, trim_chars, trim_str,
};

verus! {

/// The sections reachable from the main menu.
#[derive(Debug, Clone, Copy, PartialEq, Eq, Structural)]
pub enum MenuAction {
    Busquedas,
    Nueva,
    Informe,
    Suscribirse,
    Help,
    Start,
    AdminUsuarios,
    AdminPrecio,
    Other,
}

/// The section named by the text after `menu:`.
pub open spec fn menu_action_of(a: Seq<char>) -> MenuAction {
    if a == "busquedas"@ {
        MenuAction::Busquedas
    } else if a == "nueva"@ {
        MenuAction::Nueva
    } else if a == "informe"@ {
        MenuAction::Informe
    } else if a == "suscribirse"@ {
        MenuAction::Suscribirse
    } else if a == "help"@ {
        MenuAction::Help
    } else if a == "start"@ {
        MenuAction::Start
    } else if a == "admin_usuarios"@ {
        MenuAction::AdminUsuarios
    } else if a == "admin_precio"@ {
        MenuAction::AdminPrecio
    } else {
        MenuAction::Other
    }
}

/// Reads the section after `menu:`.
pub fn menu_action(a: &str) -> (r: MenuAction)
    ensures
        r == menu_action_of(a@),
{
    if str_eq(a, "busquedas") {
        MenuAction::Busquedas
    } else if str_eq(a, "nueva") {
        MenuAction::Nueva
    } else if str_eq(a, "informe") {
        MenuAction::Informe
    } else if str_eq(a, "suscribirse") {
        MenuAction::Suscribirse
    } else if str_eq(a, "help") {
        MenuAction::Help
    } else if str_eq(a, "start") {
        MenuAction::Start
    } else if str_eq(a, "admin_usuarios") {
        MenuAction::AdminUsuarios
    } else if str_eq(a, "admin_precio") {
        MenuAction::AdminPrecio
    } else {
        MenuAction::Other
    }
}

/// What a button press asks for.
pub enum CallbackAction {
    /// `wiz:type:<type>`: the creation wizard's scraping type.
    WizardType(String),
    /// `wiz:notify:<mode>`: the creation wizard's notification mode.
    WizardNotify(String),
    /// `wiz:cancel`.
    WizardCancel,
    /// `wiz:confirm:no`.
    WizardConfirmNo,
    /// `wiz:confirm:yes`.
    WizardConfirmYes,
    /// `menu:<section>`.
    Menu(MenuAction),
    /// `edit:<id>`: the id, when it reads as an `i64`.
    Edit(Option<i64>),
    /// `editfield:<field>`.
    EditField(String),
    /// `editnotify:<mode>`.
    EditNotify(String),
    /// `editsave`.
    EditSave,
    /// `editcancel`.
    EditCancel,
    /// `del:<id>`: the id, when it reads as an `i64`.
    Delete(Option<i64>),
    /// `pay:<searches>:<price>`: when there are at least three
    /// `:`-separated parts, the search count (when it reads as an `i32`) and
    /// the text of the price.
    Pay(Option<(Option<i32>, String)>),
    /// Anything else.
    Ignore,
}

/// What a button press asks for, as plain values.
pub enum CallbackSpec {
    WizardType(Seq<char>),
    WizardNotify(Seq<char>),
    WizardCancel,
    WizardConfirmNo,
    WizardConfirmYes,
    Menu(MenuAction),
    Edit(Option<int>),
    EditField(Seq<char>),
    EditNotify(Seq<char>),
    EditSave,
    EditCancel,
    Delete(Option<int>),
    Pay(Option<(Option<int>, Seq<char>)>),
    Ignore,
}

impl View for CallbackAction {
    type V = CallbackSpec;

    open spec fn view(&self) -> CallbackSpec {
        match self {
            CallbackAction::WizardType(s) => CallbackSpec::WizardType(s@),
            CallbackAction::WizardNotify(s) => CallbackSpec::WizardNotify(s@),
            CallbackAction::WizardCancel => CallbackSpec::WizardCancel,
            CallbackAction::WizardConfirmNo => CallbackSpec::WizardConfirmNo,
            CallbackAction::WizardConfirmYes => CallbackSpec::WizardConfirmYes,
            CallbackAction::Menu(m) => CallbackSpec::Menu(*m),
            CallbackAction::Edit(id) => CallbackSpec::Edit(match id {
                Some(v) => Some(*v as int),
                None => None,
            }),
            CallbackAction::EditField(s) => CallbackSpec::EditField(s@),
            CallbackAction::EditNotify(s) => CallbackSpec::EditNotify(s@),
            CallbackAction::EditSave => CallbackSpec::EditSave,
            CallbackAction::EditCancel => CallbackSpec::EditCancel,
            CallbackAction::Delete(id) => CallbackSpec::Delete(match id {
                Some(v) => Some(*v as int),
                None => None,
            }),
            CallbackAction::Pay(p) => CallbackSpec::Pay(match p {
                Some((n, price)) => Some((
                    match n {
                        Some(v) => Some(*v as int),
                        None => None,
                    },
                    price@,
                )),
                None => None,
            }),
            CallbackAction::Ignore => CallbackSpec::Ignore,
        }
    }
}

/// How the data of a button press is read. Prefixes are tried in this
/// order; the first that fits decides.
pub open spec fn callback_spec(d: Seq<char>) -> CallbackSpec {
    if starts_with(d, "wiz:type:"@) {
        CallbackSpec::WizardType(d.skip(9))
    } else if starts_with(d, "wiz:notify:"@) {
        CallbackSpec::WizardNotify(d.skip(11))
    } else if d == "wiz:cancel"@ {
        CallbackSpec::WizardCancel
    } else if d == "wiz:confirm:no"@ {
        CallbackSpec::WizardConfirmNo
    } else if d == "wiz:confirm:yes"@ {
        CallbackSpec::WizardConfirmYes
    } else if starts_with(d, "menu:"@) {
        CallbackSpec::Menu(menu_action_of(d.skip(5)))
    } else if starts_with(d, "edit:"@) {
        CallbackSpec::Edit(parsed_i64(d.skip(5)))
    } else if starts_with(d, "editfield:"@) {
        CallbackSpec::EditField(d.skip(10))
    } else if starts_with(d, "editnotify:"@) {
        CallbackSpec::EditNotify(d.skip(11))
    } else if d == "editsave"@ {
        CallbackSpec::EditSave
    } else if d == "editcancel"@ {
        CallbackSpec::EditCancel
    } else if starts_with(d, "del:"@) {
        CallbackSpec::Delete(parsed_i64(d.skip(4)))
    } else if starts_with(d, "pay:"@) {
        let ps = split(d, ':');
        if ps.len() >= 3 {
            CallbackSpec::Pay(Some((parsed_i32(ps[1]), ps[2])))
        } else {
            CallbackSpec::Pay(None)
        }
    } else {
        CallbackSpec::Ignore
    }
}

/// The text of `s` after its first `n` characters.
fn skip_chars(s: &str, n: usize) -> (r: String)
    requires
        n <= s@.len(),
    ensures
        r@ == s@.skip(n as int),
{
    let v = to_chars(s);
    let t = slice_chars(&v, n, v.len());
    proof {
        assert(v@.subrange(n as int, v@.len() as int) =~= s@.skip(n as int));
    }
    from_chars(&t)
}

/// Reads the data of a button press (see `callback_spec`).
pub fn parse_callback(data: &str) -> (r: CallbackAction)
    ensures
        r@ == callback_spec(data@),
{
    proof {
        reveal_strlit("wiz:type:");
        reveal_strlit("wiz:notify:");
        reveal_strlit("menu:");
        reveal_strlit("edit:");
        reveal_strlit("editfield:");
        reveal_strlit("editnotify:");
        reveal_strlit("del:");
    }
    if str_starts_with(data, "wiz:type:") {
        CallbackAction::WizardType(skip_chars(data, 9))
    } else if str_starts_with(data, "wiz:notify:") {
        CallbackAction::WizardNotify(skip_chars(data, 11))
    } else if str_eq(data, "wiz:cancel") {
        CallbackAction::WizardCancel
    } else if str_eq(data, "wiz:confirm:no") {
        CallbackAction::WizardConfirmNo
    } else if str_eq(data, "wiz:confirm:yes") {
        CallbackAction::WizardConfirmYes
    } else if str_starts_with(data, "menu:") {
        let rest = skip_chars(data, 5);
        CallbackAction::Menu(menu_action(rest.as_str()))
    } else if str_starts_with(data, "edit:") {
        let rest = skip_chars(data, 5);
        CallbackAction::Edit(parse_i64(rest.as_str()))
    } else if str_starts_with(data, "editfield:") {
        CallbackAction::EditField(skip_chars(data, 10))
    } else if str_starts_with(data, "editnotify:") {
        CallbackAction::EditNotify(skip_chars(data, 11))
    } else if str_eq(data, "editsave") {
        CallbackAction::EditSave
    } else if str_eq(data, "editcancel") {
        CallbackAction::EditCancel
    } else if str_starts_with(data, "del:") {
        let rest = skip_chars(data, 4);
        CallbackAction::Delete(parse_i64(rest.as_str()))
    } else if str_starts_with(data, "pay:") {
        let v = to_chars(data);
        let parts = split_chars(&v, ':');
        if parts.len() >= 3 {
            let n = from_chars(&parts[1]);
            let price = from_chars(&parts[2]);
            CallbackAction::Pay(Some((parse_i32(n.as_str()), price)))
        } else {
            CallbackAction::Pay(None)
        }
    } else {
        CallbackAction::Ignore
    }
}

/// An inline button: its label and the data sent back when pressed.
pub struct Button {
    pub label: String,
    pub data: String,
}

/// A keyboard as plain values: rows of (label, data).
pub type KeyboardView = Seq<Seq<(Seq<char>, Seq<char>)>>;

/// What a keyboard holds.
pub open spec fn keyboard_view(k: Seq<Vec<Button>>) -> KeyboardView {
    k.map_values(|row: Vec<Button>| row@.map_values(|b: Button| (b.label@, b.data@)))
}

fn button(label: &str, data: &str) -> (r: Button)
    ensures
        r.label@ == label@,
        r.data@ == data@,
{
    Button { label: string_of(label), data: string_of(data) }
}

/// The callback data of the edit button of search `id`.
pub open spec fn edit_data(id: int) -> Seq<char> {
    "edit:"@ + int_text(id)
}

/// The callback data of the delete button of search `id`.
pub open spec fn delete_data(id: int) -> Seq<char> {
    "del:"@ + int_text(id)
}

/// The keyboard under each listed search: edit, delete, back and home.
pub open spec fn search_actions_spec(id: int) -> KeyboardView {
    seq![
        seq![("✏️ Editar"@, edit_data(id)), ("🗑️ Eliminar"@, delete_data(id))],
        seq![("◀️ Atrás"@, "menu:busquedas"@), ("🏠 Inicio"@, "menu:start"@)],
    ]
}

/// Builds the keyboard under a listed search.
pub fn busquedas_action_keyboard(config_id: i64) -> (r: Vec<Vec<Button>>)
    ensures
        keyboard_view(r@) == search_actions_spec(config_id as int),
{
    let id = fmt_i64(config_id);
    let mut e = string_of("edit:");
    append_str(&mut e, id.as_str());
    let mut d = string_of("del:");
    append_str(&mut d, id.as_str());
    let row1 = vec![Button { label: string_of("✏️ Editar"), data: e }, Button { label: string_of("🗑️ Eliminar"), data: d }];
    let row2 = vec![button("◀️ Atrás", "menu:busquedas"), button("🏠 Inicio", "menu:start")];
    let r = vec![row1, row2];
    proof {
        assert(keyboard_view(r@) =~~= search_actions_spec(config_id as int));
    }
    r
}

/// The main menu; administrators get a row for the user list and the price.
pub open spec fn main_menu_spec(is_admin: bool) -> KeyboardView {
    let rows = seq![
        seq![("🔍 Mis búsquedas"@, "menu:busquedas"@), ("➕ Nueva búsqueda"@, "menu:nueva"@)],
        seq![("📊 Informe"@, "menu:informe"@), ("💰 Suscripción"@, "menu:suscribirse"@)],
        seq![("❓ Ayuda"@, "menu:help"@)],
    ];
    if is_admin {
        rows.push(seq![("👤 Admin: Usuarios"@, "menu:admin_usuarios"@), ("💶 Admin: Precio"@, "menu:admin_precio"@)])
    } else {
        rows
    }
}

/// Builds the main menu.
pub fn main_menu_keyboard(is_admin: bool) -> (r: Vec<Vec<Button>>)
    ensures
        keyboard_view(r@) == main_menu_spec(is_admin),
{
    let mut rows = vec![
        vec![button("🔍 Mis búsquedas", "menu:busquedas"), button("➕ Nueva búsqueda", "menu:nueva")],
        vec![button("📊 Informe", "menu:informe"), button("💰 Suscripción", "menu:suscribirse")],
        vec![button("❓ Ayuda", "menu:help")],
    ];
    if is_admin {
        rows.push(vec![button("👤 Admin: Usuarios", "menu:admin_usuarios"), button("💶 Admin: Precio", "menu:admin_precio")]);
    }
    proof {
        assert(keyboard_view(rows@) =~~= main_menu_spec(is_admin));
    }
    rows
}

/// The keyboard shown during the creation wizard: cancel, back and home.
pub open spec fn cancel_spec() -> KeyboardView {
    seq![
        seq![("❌ Cancelar wizard"@, "wiz:cancel"@)],
        seq![("◀️ Atrás"@, "menu:busquedas"@), ("🏠 Inicio"@, "menu:start"@)],
    ]
}

/// Builds the wizard keyboard.
pub fn cancel_keyboard() -> (r: Vec<Vec<Button>>)
    ensures
        keyboard_view(r@) == cancel_spec(),
{
    let r = vec![
        vec![button("❌ Cancelar wizard", "wiz:cancel")],
        vec![button("◀️ Atrás", "menu:busquedas"), button("🏠 Inicio", "menu:start")],
    ];
    proof {
        assert(keyboard_view(r@) =~~= cancel_spec());
    }
    r
}

/// The keyboard shown while the wizard waits for a text answer.
pub open spec fn wizard_cancel_spec() -> KeyboardView {
    seq![seq![("❌ Cancelar wizard"@, "wiz:cancel"@)]]
}

/// Builds the keyboard shown while the wizard waits for a text answer.
pub fn wizard_cancel_keyboard() -> (r: Vec<Vec<Button>>)
    ensures
        keyboard_view(r@) == wizard_cancel_spec(),
{
    let r = vec![vec![button("❌ Cancelar wizard", "wiz:cancel")]];
    proof {
        assert(keyboard_view(r@) =~~= wizard_cancel_spec());
    }
    r
}

/// Back to the list, or home.
pub open spec fn back_home_spec() -> KeyboardView {
    seq![seq![("◀️ Atrás"@, "menu:busquedas"@), ("🏠 Inicio"@, "menu:start"@)]]
}

/// Builds the back-or-home keyboard.
pub fn back_home_keyboard() -> (r: Vec<Vec<Button>>)
    ensures
        keyboard_view(r@) == back_home_spec(),
{
    let r = vec![vec![button("◀️ Atrás", "menu:busquedas"), button("🏠 Inicio", "menu:start")]];
    proof {
        assert(keyboard_view(r@) =~~= back_home_spec());
    }
    r
}

/// Home only.
pub open spec fn home_spec() -> KeyboardView {
    seq![seq![("🏠 Inicio"@, "menu:start"@)]]
}

/// Builds the home keyboard.
pub fn home_keyboard() -> (r: Vec<Vec<Button>>)
    ensures
        keyboard_view(r@) == home_spec(),
{
    let r = vec![vec![button("🏠 Inicio", "menu:start")]];
    proof {
        assert(keyboard_view(r@) =~~= home_spec());
    }
    r
}

/// The fields that can be edited, then back and home.
pub open spec fn edit_fields_spec() -> KeyboardView {
    seq![
        seq![("🏷️ Nombre"@, "editfield:name"@), ("🔗 URL"@, "editfield:url"@)],
        seq![("🔑 Palabras clave"@, "editfield:keywords"@), ("🎯 Selector CSS"@, "editfield:selector"@)],
        seq![("🔔 Notificación"@, "editfield:notify"@), ("🧪 Filtros"@, "editfield:filters"@)],
        seq![("◀️ Atrás"@, "menu:busquedas"@), ("🏠 Inicio"@, "menu:start"@)],
    ]
}

/// Builds the keyboard of editable fields.
pub fn edit_field_keyboard() -> (r: Vec<Vec<Button>>)
    ensures
        keyboard_view(r@) == edit_fields_spec(),
{
    let r = vec![
        vec![button("🏷️ Nombre", "editfield:name"), button("🔗 URL", "editfield:url")],
        vec![button("🔑 Palabras clave", "editfield:keywords"), button("🎯 Selector CSS", "editfield:selector")],
        vec![button("🔔 Notificación", "editfield:notify"), button("🧪 Filtros", "editfield:filters")],
        vec![button("◀️ Atrás", "menu:busquedas"), button("🏠 Inicio", "menu:start")],
    ];
    proof {
        assert(keyboard_view(r@) =~~= edit_fields_spec());
    }
    r
}

/// The scraping types offered by the creation wizard.
pub open spec fn type_choice_spec() -> KeyboardView {
    seq![
        seq![("🏛️ Contratación del Estado"@, "wiz:type:contratacion_estado"@)],
        seq![("📰 BOE (RSS)"@, "wiz:type:boe_rss"@)],
        seq![("🌏 CAIB Licitaciones"@, "wiz:type:caib_licitaciones"@)],
        seq![("🖼️ Página web genérica (HTML)"@, "wiz:type:generic_html"@)],
    ]
}

/// Builds the keyboard of scraping types.
pub fn type_choice_keyboard() -> (r: Vec<Vec<Button>>)
    ensures
        keyboard_view(r@) == type_choice_spec(),
{
    let r = vec![
        vec![button("🏛️ Contratación del Estado", "wiz:type:contratacion_estado")],
        vec![button("📰 BOE (RSS)", "wiz:type:boe_rss")],
        vec![button("🌏 CAIB Licitaciones", "wiz:type:caib_licitaciones")],
        vec![button("🖼️ Página web genérica (HTML)", "wiz:type:generic_html")],
    ];
    proof {
        assert(keyboard_view(r@) =~~= type_choice_spec());
    }
    r
}

/// The notification modes offered by the creation wizard.
pub open spec fn notify_choice_spec() -> KeyboardView {
    seq![
        seq![("🚨 Inmediatas (alerta al detectar)"@, "wiz:notify:immediate"@)],
        seq![("📊 Diarias (informe resumen)"@, "wiz:notify:daily"@)],
        seq![("🔔 Ambas"@, "wiz:notify:both"@)],
    ]
}

/// Builds the keyboard of notification modes.
pub fn notify_choice_keyboard() -> (r: Vec<Vec<Button>>)
    ensures
        keyboard_view(r@) == notify_choice_spec(),
{
    let r = vec![
        vec![button("🚨 Inmediatas (alerta al detectar)", "wiz:notify:immediate")],
        vec![button("📊 Diarias (informe resumen)", "wiz:notify:daily")],
        vec![button("🔔 Ambas", "wiz:notify:both")],
    ];
    proof {
        assert(keyboard_view(r@) =~~= notify_choice_spec());
    }
    r
}

/// Save or cancel a new search.
pub open spec fn wizard_confirm_spec() -> KeyboardView {
    seq![seq![("✅ Guardar"@, "wiz:confirm:yes"@), ("❌ Cancelar"@, "wiz:confirm:no"@)]]
}

/// Builds the keyboard confirming a new search.
pub fn wizard_confirm_keyboard() -> (r: Vec<Vec<Button>>)
    ensures
        keyboard_view(r@) == wizard_confirm_spec(),
{
    let r = vec![vec![button("✅ Guardar", "wiz:confirm:yes"), button("❌ Cancelar", "wiz:confirm:no")]];
    proof {
        assert(keyboard_view(r@) =~~= wizard_confirm_spec());
    }
    r
}

/// Daily or immediate notifications for an edited search, or leave.
pub open spec fn edit_notify_spec() -> KeyboardView {
    seq![
        seq![("📅 Diaria"@, "editnotify:daily"@), ("⚡ Inmediata"@, "editnotify:immediate"@)],
        seq![("◀️ Cancelar edición"@, "editcancel"@), ("🏠 Inicio"@, "menu:start"@)],
    ]
}

/// Builds the keyboard of notification modes of an edited search.
pub fn edit_notify_keyboard() -> (r: Vec<Vec<Button>>)
    ensures
        keyboard_view(r@) == edit_notify_spec(),
{
    let r = vec![
        vec![button("📅 Diaria", "editnotify:daily"), button("⚡ Inmediata", "editnotify:immediate")],
        vec![button("◀️ Cancelar edición", "editcancel"), button("🏠 Inicio", "menu:start")],
    ];
    proof {
        assert(keyboard_view(r@) =~~= edit_notify_spec());
    }
    r
}

/// Leave the edition, or go home.
pub open spec fn edit_prompt_spec() -> KeyboardView {
    seq![seq![("◀️ Cancelar edición"@, "editcancel"@)], seq![("🏠 Inicio"@, "menu:start"@)]]
}

/// Builds the keyboard shown while an edited field is asked for.
pub fn edit_prompt_keyboard() -> (r: Vec<Vec<Button>>)
    ensures
        keyboard_view(r@) == edit_prompt_spec(),
{
    let r = vec![vec![button("◀️ Cancelar edición", "editcancel")], vec![button("🏠 Inicio", "menu:start")]];
    proof {
        assert(keyboard_view(r@) =~~= edit_prompt_spec());
    }
    r
}

/// Save or discard the changes, back or home.
pub open spec fn edit_confirm_spec() -> KeyboardView {
    seq![
        seq![("✅ Guardar"@, "editsave"@), ("❌ Descartar"@, "editcancel"@)],
        seq![("◀️ Atrás"@, "menu:busquedas"@), ("🏠 Inicio"@, "menu:start"@)],
    ]
}

/// Builds the keyboard confirming the changes to a search.
pub fn edit_confirm_keyboard() -> (r: Vec<Vec<Button>>)
    ensures
        keyboard_view(r@) == edit_confirm_spec(),
{
    let r = vec![
        vec![button("✅ Guardar", "editsave"), button("❌ Descartar", "editcancel")],
        vec![button("◀️ Atrás", "menu:busquedas"), button("🏠 Inicio", "menu:start")],
    ];
    proof {
        assert(keyboard_view(r@) =~~= edit_confirm_spec());
    }
    r
}

/// The edit and delete buttons of a listed search are read back as an
/// edit and a deletion of that very search.
pub proof fn lemma_search_buttons_round_trip(id: i64)
    ensures
        callback_spec(edit_data(id as int)) == CallbackSpec::Edit(Some(id as int)),
        callback_spec(delete_data(id as int)) == CallbackSpec::Delete(Some(id as int)),
{
    lemma_int_text_parses(id);
    reveal_strlit("edit:");
    reveal_strlit("del:");
    reveal_strlit("wiz:type:");
    reveal_strlit("wiz:notify:");
    reveal_strlit("wiz:cancel");
    reveal_strlit("wiz:confirm:no");
    reveal_strlit("wiz:confirm:yes");
    reveal_strlit("menu:");
    reveal_strlit("editfield:");
    reveal_strlit("editnotify:");
    reveal_strlit("editsave");
    reveal_strlit("editcancel");
    let e = edit_data(id as int);
    let d = delete_data(id as int);
    assert(e.skip(5) =~= int_text(id as int));
    assert(d.skip(4) =~= int_text(id as int));
    assert(e.subrange(0, 5) =~= "edit:"@);
    assert(d.subrange(0, 4) =~= "del:"@);
    assert(e[0] == 'e' && e[4] == ':');
    assert(d[0] == 'd');
    assert(!starts_with(e, "wiz:type:"@)) by {
        if starts_with(e, "wiz:type:"@) {
            assert(e.subrange(0, 9)[0] == 'w');
        }
    }
    assert(!starts_with(e, "wiz:notify:"@)) by {
        if starts_with(e, "wiz:notify:"@) {
            assert(e.subrange(0, 11)[0] == 'w');
        }
    }
    assert(e != "wiz:cancel"@ && e != "wiz:confirm:no"@ && e != "wiz:confirm:yes"@) by {
        assert("wiz:cancel"@[0] == 'w');
        assert("wiz:confirm:no"@[0] == 'w');
        assert("wiz:confirm:yes"@[0] == 'w');
    }
    assert(!starts_with(e, "menu:"@)) by {
        if starts_with(e, "menu:"@) {
            assert(e.subrange(0, 5)[0] == 'm');
        }
    }
    assert(!starts_with(d, "wiz:type:"@)) by {
        if starts_with(d, "wiz:type:"@) {
            assert(d.subrange(0, 9)[0] == 'w');
        }
    }
    assert(!starts_with(d, "wiz:notify:"@)) by {
        if starts_with(d, "wiz:notify:"@) {
            assert(d.subrange(0, 11)[0] == 'w');
        }
    }
    assert(d != "wiz:cancel"@ && d != "wiz:confirm:no"@ && d != "wiz:confirm:yes"@) by {
        assert("wiz:cancel"@[0] == 'w');
        assert("wiz:confirm:no"@[0] == 'w');
        assert("wiz:confirm:yes"@[0] == 'w');
    }
    assert(!starts_with(d, "menu:"@)) by {
        if starts_with(d, "menu:"@) {
            assert(d.subrange(0, 5)[0] == 'm');
        }
    }
    assert(!starts_with(d, "edit:"@)) by {
        if starts_with(d, "edit:"@) {
            assert(d.subrange(0, 5)[0] == 'e');
        }
    }
    assert(!starts_with(d, "editfield:"@)) by {
        if starts_with(d, "editfield:"@) {
            assert(d.subrange(0, 10)[0] == 'e');
        }
    }
    assert(!starts_with(d, "editnotify:"@)) by {
        if starts_with(d, "editnotify:"@) {
            assert(d.subrange(0, 11)[0] == 'e');
        }
    }
    assert(d != "editsave"@ && d != "editcancel"@) by {
        assert("editsave"@[0] == 'e');
        assert("editcancel"@[0] == 'e');
    }
}


/// A search given in one line: `name | url | type | keywords | selector`.
pub struct FastSearch {
    pub name: String,
    pub url: String,
    pub search_type: String,
    pub keywords: Option<String>,
    pub css_selector: Option<String>,
}

/// The trimmed `|`-separated parts of a line.
pub open spec fn bar_parts(text: Seq<char>) -> Seq<Seq<char>> {
    split(text, '|').map_values(|p: Seq<char>| trim(p))
}

/// What a one-line search gives: at least four parts are needed (name,
/// address, type, keywords); empty keywords are none, and the fifth part,
/// when there is one and it is not empty, is the selector.
pub open spec fn fast_search_spec(text: Seq<char>)
    -> Option<(Seq<char>, Seq<char>, Seq<char>, Option<Seq<char>>, Option<Seq<char>>)>
{
    let ps = bar_parts(text);
    if ps.len() < 4 {
        None
    } else {
        Some((
            ps[0],
            ps[1],
            ps[2],
            if ps[3].len() == 0 { None } else { Some(ps[3]) },
            if ps.len() > 4 && ps[4].len() > 0 { Some(ps[4]) } else { None },
        ))
    }
}

/// Reads a search given in one line (see `fast_search_spec`).
pub fn parse_fast_search(text: &str) -> (r: Option<FastSearch>)
    ensures
        match r {
            Some(f) => fast_search_spec(text@) == Some((
                f.name@,
                f.url@,
                f.search_type@,
                crate::text::opt_view(f.keywords),
                crate::text::opt_view(f.css_selector),
            )),
            None => fast_search_spec(text@) is None,
        },
{
    let v = to_chars(text);
    let pieces = split_chars(&v, '|');
    let ghost ps = bar_parts(text@);
    if pieces.len() < 4 {
        return None;
    }
    let name = from_chars(&trim_chars(&pieces[0]));
    let url = from_chars(&trim_chars(&pieces[1]));
    let search_type = from_chars(&trim_chars(&pieces[2]));
    let kw = trim_chars(&pieces[3]);
    let keywords = if kw.len() == 0 { None } else { Some(from_chars(&kw)) };
    let css_selector = if pieces.len() > 4 {
        let sel = trim_chars(&pieces[4]);
        if sel.len() > 0 { Some(from_chars(&sel)) } else { None }
    } else {
        None
    };
    Some(FastSearch { name, url, search_type, keywords, css_selector })
}

/// `s` without all the copies of `p` it starts with (what
/// `str::trim_start_matches` gives for a non-empty `p`).
pub open spec fn strip_repeated(s: Seq<char>, p: Seq<char>) -> Seq<char>
    decreases s.len(),
{
    if p.len() > 0 && starts_with(s, p) {
        strip_repeated(s.skip(p.len() as int), p)
    } else {
        s
    }
}

/// The argument of a command message: the trimmed text, without the
/// command in front, trimmed again.
pub open spec fn command_arg(text: Seq<char>, command: Seq<char>) -> Seq<char> {
    trim(strip_repeated(trim(text), command))
}

/// Reads the argument of a command message (see `command_arg`).
pub fn command_argument(text: &str, command: &str) -> (r: String)
    ensures
        r@ == command_arg(text@, command@),
{
    let mut cur = trim_str(text);
    let ghost start = cur@;
    loop
        invariant
            strip_repeated(cur@, command@) == strip_repeated(start, command@),
            start == trim(text@),
        ensures
            strip_repeated(start, command@) == cur@,
        decreases cur@.len(),
    {
        if command.unicode_len() > 0 && str_starts_with(cur.as_str(), command) {
            let n = command.unicode_len();
            let next = skip_chars(cur.as_str(), n);
            cur = next;
        } else {
            break;
        }
    }
    trim_str(cur.as_str())
}

/// The search a `/eliminar_busqueda <id>` message names, when its argument
/// reads as an `i64`.
pub fn delete_target(text: &str) -> (r: Option<i64>)
    ensures
        r == (match parsed_i64(command_arg(text@, "/eliminar_busqueda"@)) {
            Some(v) => Some(v as i64),
            None => None::<i64>,
        }),
{
    let arg = command_argument(text, "/eliminar_busqueda");
    parse_i64(arg.as_str())
}

} // verus!
