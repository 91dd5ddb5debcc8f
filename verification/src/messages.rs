//! The texts the bot sends: summaries, listings and reports.
use vstd::prelude::*;
use crate::filters::{display_of, parsed_excluded, parsed_required, FilterConfig};
use crate::models::{SearchConfig, SearchResultWithConfig, User};
use crate::num::{decimal, fmt_i64, fmt_usize, int_text};
use crate::text::{append_str, opt_view, string_of};
use crate::wizard::{DataView, WizardData};

verus! {

/// An optional text, or `d` when it is absent.
pub open spec fn or_text(o: Option<Seq<char>>, d: Seq<char>) -> Seq<char> {
    o.unwrap_or(d)
}

/// Appends an optional text, or `d` when it is absent.
fn push_or(out: &mut String, o: &Option<String>, d: &str)
    ensures
        final(out)@ == old(out)@ + or_text(opt_view(*o), d@),
{
    match o {
        Some(s) => append_str(out, s.as_str()),
        None => append_str(out, d),
    }
}

/// The summary of a new search before it is saved.
pub open spec fn creation_summary_spec(d: DataView) -> Seq<char> {
    "📋 <b>Resumen de la búsqueda</b>\n\n<b>Nombre:</b> "@ + or_text(d.name, "-"@)
        + "\n<b>URL:</b> "@ + or_text(d.url, "-"@)
        + "\n<b>Tipo:</b> "@ + or_text(d.search_type, "-"@)
        + "\n<b>Palabras clave:</b> "@ + or_text(d.keywords, "-"@)
        + "\n<b>Selector CSS:</b> "@ + or_text(d.css_selector, "(ninguno)"@)
        + "\n<b>Filtros:</b> "@ + or_text(d.filters, "(ninguno)"@)
        + "\n<b>Notificación:</b> "@ + or_text(d.notify_mode, "daily"@)
        + "\n\n¿Guardar?"@
}

/// Writes the summary of a new search.
pub fn creation_summary(d: &WizardData) -> (r: String)
    ensures
        r@ == creation_summary_spec(d@),
{
    let mut s = string_of("📋 <b>Resumen de la búsqueda</b>\n\n<b>Nombre:</b> ");
    push_or(&mut s, &d.name, "-");
    append_str(&mut s, "\n<b>URL:</b> ");
    push_or(&mut s, &d.url, "-");
    append_str(&mut s, "\n<b>Tipo:</b> ");
    push_or(&mut s, &d.search_type, "-");
    append_str(&mut s, "\n<b>Palabras clave:</b> ");
    push_or(&mut s, &d.keywords, "-");
    append_str(&mut s, "\n<b>Selector CSS:</b> ");
    push_or(&mut s, &d.css_selector, "(ninguno)");
    append_str(&mut s, "\n<b>Filtros:</b> ");
    push_or(&mut s, &d.filters, "(ninguno)");
    append_str(&mut s, "\n<b>Notificación:</b> ");
    push_or(&mut s, &d.notify_mode, "daily");
    append_str(&mut s, "\n\n¿Guardar?");
    s
}

/// The summary of a search being edited: when choosing a field to change,
/// or (`saving`) before the changes are saved.
pub open spec fn edit_summary_spec(d: DataView, saving: bool) -> Seq<char> {
    (if saving { "📋 <b>Resumen de cambios</b>\n\n"@ } else { "✏️ <b>Editar búsqueda</b>\n\n"@ })
        + "<b>Nombre:</b> "@ + or_text(d.name, "-"@)
        + "\n<b>URL:</b> "@ + or_text(d.url, "-"@)
        + "\n<b>Tipo:</b> "@ + or_text(d.search_type, "-"@)
        + "\n<b>Palabras clave:</b> "@ + or_text(d.keywords, "-"@)
        + "\n<b>Selector CSS:</b> "@ + or_text(d.css_selector, "(ninguno)"@)
        + "\n<b>Notificación:</b> "@ + or_text(d.notify_mode, "daily"@)
        + (if saving { "\n\n¿Guardar cambios?"@ } else { "\n\n¿Qué campo quieres modificar?"@ })
}

/// Writes the summary of a search being edited.
pub fn edit_summary(d: &WizardData, saving: bool) -> (r: String)
    ensures
        r@ == edit_summary_spec(d@, saving),
{
    let mut s = if saving {
        string_of("📋 <b>Resumen de cambios</b>\n\n")
    } else {
        string_of("✏️ <b>Editar búsqueda</b>\n\n")
    };
    append_str(&mut s, "<b>Nombre:</b> ");
    push_or(&mut s, &d.name, "-");
    append_str(&mut s, "\n<b>URL:</b> ");
    push_or(&mut s, &d.url, "-");
    append_str(&mut s, "\n<b>Tipo:</b> ");
    push_or(&mut s, &d.search_type, "-");
    append_str(&mut s, "\n<b>Palabras clave:</b> ");
    push_or(&mut s, &d.keywords, "-");
    append_str(&mut s, "\n<b>Selector CSS:</b> ");
    push_or(&mut s, &d.css_selector, "(ninguno)");
    append_str(&mut s, "\n<b>Notificación:</b> ");
    push_or(&mut s, &d.notify_mode, "daily");
    if saving {
        append_str(&mut s, "\n\n¿Guardar cambios?");
    } else {
        append_str(&mut s, "\n\n¿Qué campo quieres modificar?");
    }
    s
}

/// How a search is listed: name, id, type, notification mode, keywords
/// and filters (as the filter shows itself, or `(sin filtros)`).
pub open spec fn listing_spec(c: SearchConfig) -> Seq<char> {
    "• <b>"@ + c.name@ + "</b> (ID: <code>"@ + int_text(c.id as int) + "</code>)\n  Tipo: "@ + c.search_type@
        + "\n  Notif: "@ + c.notify_mode@ + "\n  Keywords: "@ + or_text(opt_view(c.keywords), "-"@)
        + "\n  Filtros: "@ + match c.filters {
            Some(f) => display_of(parsed_required(f@), parsed_excluded(f@)),
            None => "(sin filtros)"@,
        }
}

/// Writes how a search is listed.
pub fn search_listing(c: &SearchConfig) -> (r: String)
    ensures
        r@ == listing_spec(*c),
{
    let mut s = string_of("• <b>");
    append_str(&mut s, c.name.as_str());
    append_str(&mut s, "</b> (ID: <code>");
    let id = fmt_i64(c.id);
    append_str(&mut s, id.as_str());
    append_str(&mut s, "</code>)\n  Tipo: ");
    append_str(&mut s, c.search_type.as_str());
    append_str(&mut s, "\n  Notif: ");
    append_str(&mut s, c.notify_mode.as_str());
    append_str(&mut s, "\n  Keywords: ");
    push_or(&mut s, &c.keywords, "-");
    append_str(&mut s, "\n  Filtros: ");
    match &c.filters {
        Some(f) => {
            let fc = FilterConfig::parse(f.as_str());
            let shown = fc.to_display_string();
            append_str(&mut s, shown.as_str());
        },
        None => append_str(&mut s, "(sin filtros)"),
    }
    s
}

/// Which report a list of results is written for.
#[derive(Debug, Clone, Copy, PartialEq, Eq, Structural)]
pub enum ReportKind {
    /// Asked for by the user: at most 10 results listed.
    Manual,
    /// Sent once a day: at most 10 results listed.
    Daily,
    /// Sent as soon as a search finds results: at most 5 listed.
    Immediate,
}

/// How many results a report lists.
pub open spec fn report_limit(k: ReportKind) -> nat {
    match k {
        ReportKind::Immediate => 5,
        _ => 10,
    }
}

/// The line of one listed result: with the search's name, except in an
/// immediate alert, which is about one search.
pub open spec fn report_line(k: ReportKind, r: SearchResultWithConfig) -> Seq<char> {
    let title = or_text(opt_view(r.title), "Sin título"@);
    let url = or_text(opt_view(r.url), "#"@);
    match k {
        ReportKind::Immediate => "✅ <a href=\""@ + url + "\">"@ + title + "</a>\n\n"@,
        _ => "🔍 <b>"@ + r.config_name@ + "</b>\n<a href=\""@ + url + "\">"@ + title + "</a>\n\n"@,
    }
}

/// The lines of the results `rs`.
pub open spec fn report_lines(k: ReportKind, rs: Seq<SearchResultWithConfig>) -> Seq<char>
    decreases rs.len(),
{
    if rs.len() == 0 {
        Seq::<char>::empty()
    } else {
        report_lines(k, rs.drop_last()) + report_line(k, rs.last())
    }
}

/// The head of a report of `n` results (`day` is the day of a daily
/// report; an immediate alert names the search of its first result).
pub open spec fn report_head(k: ReportKind, rs: Seq<SearchResultWithConfig>, day: Seq<char>) -> Seq<char> {
    match k {
        ReportKind::Manual => "📊 <b>Informe manual</b>\n\n<b>"@ + decimal(rs.len()) + "</b> resultados nuevos:\n\n"@,
        ReportKind::Daily => "📊 <b>Informe diario "@ + day + "</b>\n\nTienes <b>"@ + decimal(rs.len())
            + "</b> nuevos resultados:\n\n"@,
        ReportKind::Immediate => "🚨 <b>Alerta inmediata</b>\n\n<b>Búsqueda:</b> "@
            + (if rs.len() > 0 { rs[0].config_name@ } else { "Desconocida"@ }) + "\n<b>Nuevos resultados:</b> "@
            + decimal(rs.len()) + "\n\n"@,
    }
}

/// A report: its head, the lines of the first results up to the kind's
/// limit, and how many more there are.
pub open spec fn report_spec(k: ReportKind, rs: Seq<SearchResultWithConfig>, day: Seq<char>) -> Seq<char> {
    let shown = if rs.len() > report_limit(k) { report_limit(k) as int } else { rs.len() as int };
    report_head(k, rs, day) + report_lines(k, rs.take(shown))
        + (if rs.len() > report_limit(k) { "...y "@ + decimal((rs.len() - report_limit(k)) as nat) + " más\n"@ } else { Seq::<char>::empty() })
}

/// A report and the ids of the results it lists, which are then marked as
/// notified.
pub struct Report {
    pub text: String,
    pub listed: Vec<i64>,
}

fn push_line(s: &mut String, k: ReportKind, r: &SearchResultWithConfig)
    ensures
        final(s)@ == old(s)@ + report_line(k, *r),
{
    match k {
        ReportKind::Immediate => {
            append_str(s, "✅ <a href=\"");
            push_or(s, &r.url, "#");
            append_str(s, "\">");
            push_or(s, &r.title, "Sin título");
            append_str(s, "</a>\n\n");
        },
        _ => {
            append_str(s, "🔍 <b>");
            append_str(s, r.config_name.as_str());
            append_str(s, "</b>\n<a href=\"");
            push_or(s, &r.url, "#");
            append_str(s, "\">");
            push_or(s, &r.title, "Sin título");
            append_str(s, "</a>\n\n");
        },
    }
}

/// Writes a report of the results `rs` (see `report_spec`); `day` is shown
/// in a daily report.
pub fn report(k: ReportKind, rs: &Vec<SearchResultWithConfig>, day: &str) -> (r: Report)
    ensures
        r.text@ == report_spec(k, rs@, day@),
        r.listed@ == rs@.take(if rs.len() > report_limit(k) { report_limit(k) as int } else { rs.len() as int })
            .map_values(|x: SearchResultWithConfig| x.id),
{
    let n = rs.len();
    let mut s = match k {
        ReportKind::Manual => {
            let mut s = string_of("📊 <b>Informe manual</b>\n\n<b>");
            let c = fmt_usize(n);
            append_str(&mut s, c.as_str());
            append_str(&mut s, "</b> resultados nuevos:\n\n");
            s
        },
        ReportKind::Daily => {
            let mut s = string_of("📊 <b>Informe diario ");
            append_str(&mut s, day);
            append_str(&mut s, "</b>\n\nTienes <b>");
            let c = fmt_usize(n);
            append_str(&mut s, c.as_str());
            append_str(&mut s, "</b> nuevos resultados:\n\n");
            s
        },
        ReportKind::Immediate => {
            let mut s = string_of("🚨 <b>Alerta inmediata</b>\n\n<b>Búsqueda:</b> ");
            if n > 0 {
                append_str(&mut s, rs[0].config_name.as_str());
            } else {
                append_str(&mut s, "Desconocida");
            }
            append_str(&mut s, "\n<b>Nuevos resultados:</b> ");
            let c = fmt_usize(n);
            append_str(&mut s, c.as_str());
            append_str(&mut s, "\n\n");
            s
        },
    };
    let ghost head = s@;
    assert(head == report_head(k, rs@, day@));
    let limit: usize = match k {
        ReportKind::Immediate => 5,
        _ => 10,
    };
    let shown = if n > limit { limit } else { n };
    let mut listed: Vec<i64> = Vec::new();
    let mut i: usize = 0;
    proof {
        assert(rs@.take(0) =~= Seq::<SearchResultWithConfig>::empty());
        assert(s@ =~= head + report_lines(k, rs@.take(0)));
    }
    while i < shown
        invariant
            i <= shown <= n == rs.len(),
            s@ == head + report_lines(k, rs@.take(i as int)),
            listed@ == rs@.take(i as int).map_values(|x: SearchResultWithConfig| x.id),
        decreases shown - i,
    {
        listed.push(rs[i].id);
        push_line(&mut s, k, &rs[i]);
        proof {
            assert(rs@.take(i + 1).drop_last() =~= rs@.take(i as int));
            assert(rs@.take(i + 1).last() == rs@[i as int]);
            assert(s@ =~= head + report_lines(k, rs@.take(i + 1)));
            assert(listed@ =~= rs@.take(i + 1).map_values(|x: SearchResultWithConfig| x.id));
        }
        i = i + 1;
    }
    if n > limit {
        append_str(&mut s, "...y ");
        let more = fmt_usize(n - limit);
        append_str(&mut s, more.as_str());
        append_str(&mut s, " más\n");
    }
    proof {
        assert(s@ =~= report_spec(k, rs@, day@));
    }
    Report { text: s, listed }
}

/// The line listing one user to administrators.
pub open spec fn user_line(u: User) -> Seq<char> {
    "• "@ + int_text(u.telegram_id as int) + " "@ + or_text(opt_view(u.first_name), ""@) + " (@"@
        + or_text(opt_view(u.username), "-"@) + ") — admin:"@ + (if u.is_admin { "✓"@ } else { "✗"@ }) + "\n"@
}

/// The lines of the users `us`.
pub open spec fn user_lines(us: Seq<User>) -> Seq<char>
    decreases us.len(),
{
    if us.len() == 0 {
        Seq::<char>::empty()
    } else {
        user_lines(us.drop_last()) + user_line(us.last())
    }
}

/// The list of users shown to administrators.
pub open spec fn users_text_spec(us: Seq<User>) -> Seq<char> {
    "👤 <b>"@ + decimal(us.len()) + " usuarios</b>\n\n"@ + user_lines(us)
}

fn push_user_line(s: &mut String, u: &User)
    ensures
        final(s)@ == old(s)@ + user_line(*u),
{
    append_str(s, "• ");
    let id = fmt_i64(u.telegram_id);
    append_str(s, id.as_str());
    append_str(s, " ");
    push_or(s, &u.first_name, "");
    append_str(s, " (@");
    push_or(s, &u.username, "-");
    append_str(s, ") — admin:");
    if u.is_admin {
        append_str(s, "✓");
    } else {
        append_str(s, "✗");
    }
    append_str(s, "\n");
}

/// Writes the list of users shown to administrators.
pub fn users_text(us: &Vec<User>) -> (r: String)
    ensures
        r@ == users_text_spec(us@),
{
    let mut s = string_of("👤 <b>");
    let c = fmt_usize(us.len());
    append_str(&mut s, c.as_str());
    append_str(&mut s, " usuarios</b>\n\n");
    let ghost head = s@;
    let mut i: usize = 0;
    proof {
        assert(us@.take(0) =~= Seq::<User>::empty());
        assert(s@ =~= head + user_lines(us@.take(0)));
    }
    while i < us.len()
        invariant
            i <= us.len(),
            s@ == head + user_lines(us@.take(i as int)),
        decreases us.len() - i,
    {
        push_user_line(&mut s, &us[i]);
        proof {
            assert(us@.take(i + 1).drop_last() =~= us@.take(i as int));
            assert(us@.take(i + 1).last() == us@[i as int]);
            assert(s@ =~= head + user_lines(us@.take(i + 1)));
        }
        i = i + 1;
    }
    proof {
        assert(us@.take(us.len() as int) =~= us@);
    }
    s
}

/// The welcome message.
pub open spec fn welcome_spec(bot_name: Seq<char>, first_name: Seq<char>) -> Seq<char> {
    "🔍 <b>"@ + bot_name + "</b>\n\nBienvenido, "@ + first_name
        + ".\n\nCon este bot puedes:\n• Configurar búsquedas automatizadas en portales públicos\n• Recibir informes diarios con nuevas oportunidades\n• Gestionar tus suscripciones y pagos"@
}

/// Writes the welcome message.
pub fn welcome_text(bot_name: &str, first_name: &str) -> (r: String)
    ensures
        r@ == welcome_spec(bot_name@, first_name@),
{
    let mut s = string_of("🔍 <b>");
    append_str(&mut s, bot_name);
    append_str(&mut s, "</b>\n\nBienvenido, ");
    append_str(&mut s, first_name);
    append_str(&mut s, ".\n\nCon este bot puedes:\n• Configurar búsquedas automatizadas en portales públicos\n• Recibir informes diarios con nuevas oportunidades\n• Gestionar tus suscripciones y pagos");
    s
}

/// The list of commands.
pub const HELP_TEXT: &'static str = "📚 <b>Comandos disponibles</b>\n\n<b>Usuario</b>\n/start - Iniciar el bot\n/help - Mostrar ayuda\n/busquedas - Ver tus búsquedas configuradas\n/nueva_busqueda - Crear una nueva búsqueda\n/eliminar_busqueda - Borrar una búsqueda\n/suscribirse - Gestionar tu suscripción\n/informe - Ver informe manual\n\n<b>Admin</b>\n/admin_precio - Cambiar precio por búsqueda\n/admin_usuarios - Listar usuarios";

/// The message telling a search was created.
pub open spec fn created_spec(name: Seq<char>, id: int) -> Seq<char> {
    "✅ Búsqueda '<b>"@ + name + "</b>' creada con ID <code>"@ + int_text(id) + "</code>."@
}

/// Writes the message telling a search was created.
pub fn created_text(name: &str, id: i64) -> (r: String)
    ensures
        r@ == created_spec(name@, id as int),
{
    let mut s = string_of("✅ Búsqueda '<b>");
    append_str(&mut s, name);
    append_str(&mut s, "</b>' creada con ID <code>");
    let t = fmt_i64(id);
    append_str(&mut s, t.as_str());
    append_str(&mut s, "</code>.");
    s
}

/// The answer to a saved name.
pub open spec fn name_saved_spec(name: Seq<char>) -> Seq<char> {
    "✅ Nombre: <b>"@ + name + "</b>\n\nAhora envía la URL completa del portal donde quieres buscar."@
}

/// Writes the answer to a saved name.
pub fn name_saved_text(name: &str) -> (r: String)
    ensures
        r@ == name_saved_spec(name@),
{
    let mut s = string_of("✅ Nombre: <b>");
    append_str(&mut s, name);
    append_str(&mut s, "</b>\n\nAhora envía la URL completa del portal donde quieres buscar.");
    s
}

/// The answer to a learned selector: the one used, or why there is none.
pub open spec fn learned_spec(domain: Seq<char>, selector: Option<Seq<char>>, confidence: int) -> Seq<char> {
    if confidence >= 50 {
        "💡 <b>Selector detectado automáticamente</b>\n\nDominio: <code>"@ + domain + "</code>\nSelector: <code>"@
            + or_text(selector, "-"@) + "</code>\nConfianza: "@ + int_text(confidence) + "%"@
    } else {
        "⚠️ No se pudo detectar un selector fiable (confianza: "@ + int_text(confidence) + "%). Continuamos sin selector."@
    }
}

/// Writes the answer to a learned selector.
pub fn learned_text(domain: &str, selector: &Option<String>, confidence: i32) -> (r: String)
    ensures
        r@ == learned_spec(domain@, opt_view(*selector), confidence as int),
{
    let c = fmt_i64(confidence as i64);
    if confidence >= 50 {
        let mut s = string_of("💡 <b>Selector detectado automáticamente</b>\n\nDominio: <code>");
        append_str(&mut s, domain);
        append_str(&mut s, "</code>\nSelector: <code>");
        push_or(&mut s, selector, "-");
        append_str(&mut s, "</code>\nConfianza: ");
        append_str(&mut s, c.as_str());
        append_str(&mut s, "%");
        s
    } else {
        let mut s = string_of("⚠️ No se pudo detectar un selector fiable (confianza: ");
        append_str(&mut s, c.as_str());
        append_str(&mut s, "%). Continuamos sin selector.");
        s
    }
}


/// A report lists at most its kind's limit of results, and all of them
/// when there are no more than that.
pub proof fn lemma_report_listing(k: ReportKind, rs: Seq<SearchResultWithConfig>)
    ensures
        ({
            let shown = if rs.len() > report_limit(k) { report_limit(k) as int } else { rs.len() as int };
            &&& rs.take(shown).map_values(|x: SearchResultWithConfig| x.id).len() <= report_limit(k)
            &&& rs.len() <= report_limit(k) ==> rs.take(shown).map_values(|x: SearchResultWithConfig| x.id).len() == rs.len()
        }),
{
}

} // verus!
