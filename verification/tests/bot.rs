use scraper_bot::conversation::{
    finish_selector, learned_selector, on_edit_field, on_edit_notify, on_edit_open, on_wizard_confirm, on_wizard_notify,
    on_wizard_text, on_wizard_type, ConfirmOutcome, WizardReply,
};
use scraper_bot::dates::{SimpleDate, SimpleDateTime};
use scraper_bot::handlers::{
    busquedas_action_keyboard, command_argument, delete_target, main_menu_keyboard, parse_callback, parse_fast_search,
    CallbackAction, MenuAction,
};
use scraper_bot::messages::{creation_summary, edit_summary, learned_text, report, search_listing, users_text, welcome_text, ReportKind};
use scraper_bot::models::{SearchConfig, SearchResultWithConfig, User};
use scraper_bot::wizard::{
    clear_wizard, get_edit_state, get_wizard_state, start_wizard, EditStep, WizardData, WizardRegistry, WizardStep,
};

fn at(day: u32) -> SimpleDateTime {
    SimpleDateTime { date: SimpleDate { year: 2026, month: 4, day }, hour: 0, minute: 0, second: 0 }
}

#[test]
fn callback_data_is_read() {
    assert!(matches!(parse_callback("wiz:type:boe_rss"), CallbackAction::WizardType(t) if t == "boe_rss"));
    assert!(matches!(parse_callback("wiz:notify:both"), CallbackAction::WizardNotify(m) if m == "both"));
    assert!(matches!(parse_callback("wiz:cancel"), CallbackAction::WizardCancel));
    assert!(matches!(parse_callback("wiz:confirm:yes"), CallbackAction::WizardConfirmYes));
    assert!(matches!(parse_callback("wiz:confirm:no"), CallbackAction::WizardConfirmNo));
    assert!(matches!(parse_callback("menu:informe"), CallbackAction::Menu(MenuAction::Informe)));
    assert!(matches!(parse_callback("menu:otra"), CallbackAction::Menu(MenuAction::Other)));
    assert!(matches!(parse_callback("edit:42"), CallbackAction::Edit(Some(42))));
    assert!(matches!(parse_callback("edit:x"), CallbackAction::Edit(None)));
    assert!(matches!(parse_callback("editfield:url"), CallbackAction::EditField(f) if f == "url"));
    assert!(matches!(parse_callback("editnotify:daily"), CallbackAction::EditNotify(m) if m == "daily"));
    assert!(matches!(parse_callback("editsave"), CallbackAction::EditSave));
    assert!(matches!(parse_callback("editcancel"), CallbackAction::EditCancel));
    assert!(matches!(parse_callback("del:-7"), CallbackAction::Delete(Some(-7))));
    match parse_callback("pay:3:22.5") {
        CallbackAction::Pay(Some((Some(3), price))) => assert_eq!(price, "22.5"),
        _ => panic!("a payment button names the searches and the price"),
    }
    assert!(matches!(parse_callback("pay:3"), CallbackAction::Pay(None)));
    assert!(matches!(parse_callback("other"), CallbackAction::Ignore));
}

#[test]
fn search_buttons_round_trip() {
    for id in [0i64, 17, -3, i64::MAX, i64::MIN] {
        let kb = busquedas_action_keyboard(id);
        assert!(matches!(parse_callback(&kb[0][0].data), CallbackAction::Edit(Some(v)) if v == id));
        assert!(matches!(parse_callback(&kb[0][1].data), CallbackAction::Delete(Some(v)) if v == id));
    }
    assert_eq!(main_menu_keyboard(false).len(), 3);
    let admin = main_menu_keyboard(true);
    assert_eq!(admin.len(), 4);
    assert_eq!(admin[3][1].data, "menu:admin_precio");
}

#[test]
fn one_line_searches_are_read() {
    let f = parse_fast_search("Obras | https://www.boe.es | boe_rss | obras, servicios | ").unwrap();
    assert_eq!((f.name.as_str(), f.url.as_str(), f.search_type.as_str()), ("Obras", "https://www.boe.es", "boe_rss"));
    assert_eq!(f.keywords.as_deref(), Some("obras, servicios"));
    assert_eq!(f.css_selector, None);
    let g = parse_fast_search("A|u|generic_html||div.item").unwrap();
    assert_eq!((g.keywords, g.css_selector.as_deref()), (None, Some("div.item")));
    assert!(parse_fast_search("A | u | t").is_none());
}

#[test]
fn command_arguments_are_read() {
    assert_eq!(command_argument("  /eliminar_busqueda  12 ", "/eliminar_busqueda"), "12");
    assert_eq!(delete_target("/eliminar_busqueda 12"), Some(12));
    assert_eq!(delete_target("/eliminar_busqueda/eliminar_busqueda 5"), Some(5));
    assert_eq!(delete_target("/eliminar_busqueda"), None);
    assert_eq!(command_argument("/admin_precio 7.50", "/admin_precio"), "7.50");
}

#[test]
fn creation_wizard_collects_a_search() {
    let mut reg = WizardRegistry::new();
    assert!(matches!(on_wizard_text(&mut reg, 1, "hola"), WizardReply::NotInWizard));
    start_wizard(&mut reg, 1);
    assert!(matches!(on_wizard_text(&mut reg, 1, "Obras"), WizardReply::NameSaved(n) if n == "Obras"));
    assert!(matches!(on_wizard_text(&mut reg, 1, "https://example.com/licitaciones"), WizardReply::UrlSaved));
    assert!(matches!(on_wizard_text(&mut reg, 1, "texto"), WizardReply::ChooseOption));
    assert!(on_wizard_type(&mut reg, 1, "generic_html"));
    assert!(matches!(on_wizard_text(&mut reg, 1, "  "), WizardReply::KeywordsSaved));
    assert_eq!(get_wizard_state(&reg, 1).unwrap().data.keywords, None);
    match on_wizard_text(&mut reg, 1, " . ") {
        WizardReply::LearnSelector(url) => assert_eq!(url, "https://example.com/licitaciones"),
        _ => panic!("a generic page without selector is analysed"),
    }
    assert!(matches!(get_wizard_state(&reg, 1).unwrap().step, WizardStep::AskSelector));
    finish_selector(&mut reg, 1, learned_selector(80, Some("article".to_string())));
    let st = get_wizard_state(&reg, 1).unwrap();
    assert!(matches!(st.step, WizardStep::AskNotifyMode));
    assert_eq!(st.data.css_selector.as_deref(), Some("article"));
    let shown = on_wizard_notify(&mut reg, 1, "immediate").unwrap();
    assert_eq!(shown.notify_mode.as_deref(), Some("immediate"));
    let summary = creation_summary(&shown);
    assert!(summary.contains("<b>Nombre:</b> Obras\n"));
    assert!(summary.contains("<b>Palabras clave:</b> -\n"));
    assert!(summary.contains("<b>Filtros:</b> (ninguno)\n"));
    assert!(summary.ends_with("<b>Notificación:</b> immediate\n\n¿Guardar?"));
    match on_wizard_confirm(&mut reg, 1) {
        ConfirmOutcome::Create(n) => {
            assert_eq!((n.name.as_str(), n.search_type.as_str()), ("Obras", "generic_html"));
            assert_eq!(n.css_selector.as_deref(), Some("article"));
        }
        _ => panic!("a complete wizard creates its search"),
    }
    assert!(get_wizard_state(&reg, 1).is_none());
    assert!(matches!(on_wizard_confirm(&mut reg, 1), ConfirmOutcome::NoWizard));
}

#[test]
fn wizard_without_address_creates_nothing() {
    let mut reg = WizardRegistry::new();
    start_wizard(&mut reg, 5);
    on_wizard_text(&mut reg, 5, "Sin URL");
    assert!(matches!(on_wizard_confirm(&mut reg, 5), ConfirmOutcome::MissingData));
    assert!(learned_selector(49, Some("x".to_string())).is_none());
}

#[test]
fn users_do_not_share_wizards() {
    let mut reg = WizardRegistry::new();
    start_wizard(&mut reg, 1);
    start_wizard(&mut reg, 2);
    on_wizard_text(&mut reg, 1, "Uno");
    assert_eq!(get_wizard_state(&reg, 2).unwrap().data.name, None);
    clear_wizard(&mut reg, 1);
    assert!(get_wizard_state(&reg, 1).is_none());
    assert!(get_wizard_state(&reg, 2).is_some());
}

fn config(owner: i64) -> SearchConfig {
    SearchConfig {
        id: 9,
        telegram_id: owner,
        name: "BOE".to_string(),
        url: "https://www.boe.es".to_string(),
        search_type: "boe_rss".to_string(),
        keywords: Some("obras".to_string()),
        css_selector: None,
        notify_mode: "daily".to_string(),
        filters: Some("+Baleares,-Cáceres".to_string()),
        is_active: true,
        created_at: at(1),
        updated_at: at(1),
    }
}

#[test]
fn editing_wizard_moves_through_fields() {
    let mut reg = WizardRegistry::new();
    assert!(on_edit_open(&mut reg, 1, &config(2)).is_none());
    assert!(get_edit_state(&reg, 1).is_none());
    let data = on_edit_open(&mut reg, 1, &config(1)).unwrap();
    assert!(edit_summary(&data, false).starts_with("✏️ <b>Editar búsqueda</b>\n\n<b>Nombre:</b> BOE\n"));
    assert!(on_edit_field(&mut reg, 1, "url").is_some());
    assert!(matches!(get_edit_state(&reg, 1).unwrap().step, EditStep::EditUrl));
    on_edit_field(&mut reg, 1, "menu");
    assert!(matches!(get_edit_state(&reg, 1).unwrap().step, EditStep::ChooseField));
    let d = on_edit_notify(&mut reg, 1, "immediate").unwrap();
    assert!(edit_summary(&d, true).ends_with("<b>Notificación:</b> immediate\n\n¿Guardar cambios?"));
    let e = get_edit_state(&reg, 1).unwrap();
    assert!(matches!(e.step, EditStep::Confirm));
    assert_eq!(e.config_id, 9);
    assert!(get_wizard_state(&reg, 1).is_none());
}

#[test]
fn searches_are_listed() {
    let text = search_listing(&config(1));
    assert_eq!(
        text,
        "• <b>BOE</b> (ID: <code>9</code>)\n  Tipo: boe_rss\n  Notif: daily\n  Keywords: obras\n  Filtros: +baleares, -cáceres"
    );
    let mut c = config(1);
    c.filters = None;
    c.keywords = None;
    assert!(search_listing(&c).ends_with("Keywords: -\n  Filtros: (sin filtros)"));
}

fn result(id: i64, title: Option<&str>) -> SearchResultWithConfig {
    SearchResultWithConfig {
        id,
        search_config_id: 9,
        title: title.map(String::from),
        description: None,
        url: Some(format!("https://x/{}", id)),
        external_id: None,
        raw_data: None,
        published_at: None,
        scraped_at: at(2),
        notified: false,
        config_name: "BOE".to_string(),
    }
}

#[test]
fn reports_list_a_bounded_number_of_results() {
    let rs: Vec<SearchResultWithConfig> = (1..=12).map(|i| result(i, if i == 1 { None } else { Some("T") })).collect();
    let manual = report(ReportKind::Manual, &rs, "");
    assert_eq!(manual.listed, (1..=10).collect::<Vec<i64>>());
    assert!(manual.text.starts_with("📊 <b>Informe manual</b>\n\n<b>12</b> resultados nuevos:\n\n🔍 <b>BOE</b>\n<a href=\"https://x/1\">Sin título</a>\n\n"));
    assert!(manual.text.ends_with("...y 2 más\n"));
    let alert = report(ReportKind::Immediate, &rs, "");
    assert_eq!(alert.listed.len(), 5);
    assert!(alert.text.starts_with("🚨 <b>Alerta inmediata</b>\n\n<b>Búsqueda:</b> BOE\n<b>Nuevos resultados:</b> 12\n\n✅ <a href=\"https://x/1\">Sin título</a>\n\n"));
    assert!(alert.text.ends_with("...y 7 más\n"));
    let two = vec![result(1, None), result(2, Some("T"))];
    let daily = report(ReportKind::Daily, &two, "2026-04-21");
    assert!(daily.text.starts_with("📊 <b>Informe diario 2026-04-21</b>\n\nTienes <b>2</b> nuevos resultados:\n\n"));
    assert!(!daily.text.contains("más"));
    assert_eq!(daily.listed, vec![1, 2]);
}

#[test]
fn other_messages() {
    let users = vec![User {
        telegram_id: 7,
        username: None,
        first_name: Some("Ana".to_string()),
        last_name: None,
        phone: None,
        email: None,
        is_admin: true,
        is_active: true,
        created_at: at(1),
        updated_at: at(1),
    }];
    assert_eq!(users_text(&users), "👤 <b>1 usuarios</b>\n\n• 7 Ana (@-) — admin:✓\n");
    assert!(welcome_text("Licitabot", "Ana").starts_with("🔍 <b>Licitabot</b>\n\nBienvenido, Ana.\n\n"));
    assert_eq!(
        learned_text("www.boe.es", &Some("article".to_string()), 72),
        "💡 <b>Selector detectado automáticamente</b>\n\nDominio: <code>www.boe.es</code>\nSelector: <code>article</code>\nConfianza: 72%"
    );
    assert_eq!(
        learned_text("x", &None, 10),
        "⚠️ No se pudo detectar un selector fiable (confianza: 10%). Continuamos sin selector."
    );
    let _ = WizardData::blank();
}
