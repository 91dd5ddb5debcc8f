use scraper_bot::auto_learn::{best_candidate, candidate_score, candidate_stats, learn_from_page, profile_domain, CandidateStats};
use scraper_bot::config::Config;
use scraper_bot::dates::{add_one_month, format_dmy, SimpleDate};
use scraper_bot::num::{fmt_i64, parse_i64};
use scraper_bot::payments::checkout_request;
use scraper_bot::queries::{mark_notified_statement, update_statement, SearchUpdate};
use scraper_bot::scheduler::{is_report_time, notifies_immediately, scrape_log_entry, store_action, StoreAction};
use scraper_bot::scraper::borm::summary_url;
use scraper_bot::scraper::caib::{caib_next, portal_items, CaibSource, CaibStep};
use scraper_bot::scraper::contratacion_estado::{fill_script, portal_items as portal_rows, portal_keyword};
use scraper_bot::scraper::generic::{html_items, resolve_url};
use scraper_bot::scraper::ScrapedItem;
use scraper_bot::text::{replace_all, truncate_bytes};

#[test]
fn text_replacement_and_truncation() {
    assert_eq!(replace_all("/a/null/b/null/", "/null/", "/ca/"), "/a/ca/b/ca/");
    assert_eq!(replace_all("aaa", "aa", "b"), "ba");
    assert_eq!(replace_all("sin cambio", "x", "y"), "sin cambio");
    assert_eq!(truncate_bytes("abcdef", 4), "abcd");
    assert_eq!(truncate_bytes("ñññ", 3), "ñ");
    assert_eq!(truncate_bytes("ok", 200), "ok");
}

#[test]
fn numbers_and_dates() {
    assert_eq!(fmt_i64(-905), "-905");
    assert_eq!(parse_i64(&fmt_i64(i64::MIN)), Some(i64::MIN));
    assert_eq!(parse_i64("+4"), Some(4));
    assert_eq!(parse_i64("4 "), None);
    assert_eq!(format_dmy(SimpleDate { year: 2026, month: 5, day: 2 }), "02-05-2026");
    assert_eq!(summary_url(SimpleDate { year: 2026, month: 5, day: 2 }), "https://www.borm.es/services/boletin/fecha/02-05-2026/sumario");
    assert_eq!(add_one_month(SimpleDate { year: 2026, month: 1, day: 31 }), Some(SimpleDate { year: 2026, month: 2, day: 28 }));
    assert_eq!(add_one_month(SimpleDate { year: 2026, month: 12, day: 15 }), Some(SimpleDate { year: 2027, month: 1, day: 15 }));
}

#[test]
fn settings_expand_environment_references() {
    let env = vec![("TOKEN".to_string(), "abc".to_string())];
    let text = "token = \"${TOKEN}\"\nurl = \"${BASE:-http://localhost}\"\nempty = \"${NONE}\"";
    assert_eq!(
        Config::expand_env_vars(text, &env),
        "token = \"abc\"\nurl = \"http://localhost\"\nempty = \"\""
    );
    assert_eq!(Config::expand_env_vars("sin referencias", &env), "sin referencias");
}

#[test]
fn statements_follow_the_fields() {
    let none = SearchUpdate { name: false, url: false, search_type: false, keywords: false, css_selector: false, notify_mode: false, filters: false };
    assert_eq!(update_statement(&none), None);
    let some = SearchUpdate { name: true, notify_mode: true, ..none };
    assert_eq!(
        update_statement(&some).as_deref(),
        Some("UPDATE search_configs SET updated_at = CURRENT_TIMESTAMP, name = ?, notify_mode = ? WHERE id = ? AND telegram_id = ?")
    );
    assert_eq!(mark_notified_statement(0), None);
    assert_eq!(mark_notified_statement(3).as_deref(), Some("UPDATE search_results SET notified = TRUE WHERE id IN (?,?,?)"));
}

#[test]
fn scheduler_decisions() {
    assert!(is_report_time(9, 4, 9));
    assert!(!is_report_time(9, 5, 9));
    assert!(notifies_immediately("both") && notifies_immediately("immediate") && !notifies_immediately("daily"));
    let mut item = ScrapedItem { title: None, description: None, url: None, external_id: Some(String::new()), raw_data: None, published_at: None };
    assert!(matches!(store_action(&item), StoreAction::SaveAlways));
    item.external_id = Some("BOE-1".to_string());
    assert!(matches!(store_action(&item), StoreAction::SaveIfNew(e) if e == "BOE-1"));
    let ok = scrape_log_entry(Ok(4));
    assert_eq!((ok.status.as_str(), ok.items_found, ok.error_message), ("ok", 4, None));
    let err = scrape_log_entry(Err("boom".to_string()));
    assert_eq!((err.status.as_str(), err.items_found, err.error_message.as_deref()), ("error", 0, Some("boom")));
}

#[test]
fn checkout_is_described() {
    let c = checkout_request("https://pay.example", 42, 3);
    assert_eq!(c.success_url, "https://pay.example/payment/success?session_id={CHECKOUT_SESSION_ID}");
    assert_eq!(c.cancel_url, "https://pay.example/payment/cancel");
    assert_eq!(c.product_name, "Suscripción 3 búsquedas");
    assert_eq!(c.client_reference_id, "42_3");
    assert_eq!(c.metadata[1], ("searches_count".to_string(), "3".to_string()));
}

#[test]
fn caib_sources_are_tried_in_order() {
    assert_eq!(caib_next(CaibSource::EboibSearch, Some(2)), CaibStep::Done);
    assert_eq!(caib_next(CaibSource::EboibSearch, Some(0)), CaibStep::Try(CaibSource::EboibRss));
    assert_eq!(caib_next(CaibSource::EboibRss, None), CaibStep::Try(CaibSource::Portal));
    assert_eq!(caib_next(CaibSource::Portal, None), CaibStep::Done);
    assert!(portal_items("<p>Mòdul d'autenticació</p><a href='/licitacio/1'>Licitació</a>", &vec![]).is_empty());
    let items = portal_items("<a href='/licitacions/77'>Obra nova</a><a href='http://x/contractes/5'>  </a>", &vec![]);
    assert_eq!(items.len(), 1);
    assert_eq!(items[0].url.as_deref(), Some("https://www.caib.es/licitacions/77"));
    assert_eq!(items[0].external_id.as_deref(), Some("77"));
}

#[test]
fn state_portal_helpers() {
    assert_eq!(portal_keyword(Some(" , Prevención riesgos ,otra")), "Prevención riesgos");
    assert_eq!(portal_keyword(None), "prevención de riesgos");
    let js = fill_script("in'put", "l'obra");
    assert!(js.contains("document.getElementById('in\\'put')"));
    assert!(js.contains("input.value = 'l\\'obra';"));
    let items = portal_rows(r#"[{"title":"Servicio","description":"Exp 1","date":"21/04/2026","external_id":"ABC","detail_url":"x"},{"title":"Otro","external_id":""}]"#);
    assert_eq!(items.len(), 2);
    assert_eq!(items[0].url.as_deref(), Some("https://contrataciondelestado.es/wps/poc?uri=deeplink:detalle_licitacion&idEvl=ABC"));
    assert_eq!(items[0].published_at.map(|d| d.date), Some(SimpleDate { year: 2026, month: 4, day: 21 }));
    assert_eq!(items[1].url, None);
    assert_eq!(items[1].description, None);
    assert!(portal_rows("no es json").is_empty());
}

#[test]
fn generic_pages() {
    assert_eq!(resolve_url("https://example.org/a/b", "c?x=1"), "https://example.org/a/c?x=1");
    assert_eq!(resolve_url("https://example.org/a/b", "http://other/z"), "http://other/z");
    assert_eq!(resolve_url("no base", "/rel"), "https://example.com/rel");
    let page = "<div><a href='/uno'> Primera  licitación </a><a href='/dos'>Otra cosa</a><a>Sin enlace</a></div>";
    let all = html_items("https://portal.es/x", page, None, None).ok().unwrap();
    assert_eq!(all.len(), 3);
    assert_eq!(all[0].title.as_deref(), Some("Primera  licitación"));
    assert_eq!(all[0].url.as_deref(), Some("https://portal.es/uno"));
    assert_eq!(all[2].url, None);
    let some = html_items("https://portal.es/x", page, None, Some("licitación, nada")).ok().unwrap();
    assert_eq!(some.len(), 1);
    assert!(html_items("https://portal.es/x", page, Some("[[["), None).is_err());
}

#[test]
fn selectors_are_learned() {
    assert_eq!(profile_domain("https://www.boe.es/rss").as_deref(), Some("www.boe.es"));
    assert_eq!(profile_domain("no es una url"), None);
    let stats = CandidateStats { count: 10, text_bytes: 1500, links: 10, titled: 5 };
    assert_eq!(candidate_score(&stats), Some(20 + 15 + 5 + 25));
    assert_eq!(candidate_score(&CandidateStats { count: 1, text_bytes: 0, links: 0, titled: 0 }), None);
    assert_eq!(best_candidate(&vec![None, Some(30), Some(30), Some(45), Some(0)]), Some((3, 45)));
    assert_eq!(best_candidate(&vec![None, Some(0)]), None);
    let page = "<html><body><article><h2>A</h2><a href='/1'>uno</a></article><article><h2>B</h2><a href='/2'>dos</a></article><p>x</p></body></html>";
    let s = candidate_stats(page, "article").unwrap();
    assert_eq!((s.count, s.links, s.titled), (2, 2, 2));
    let p = learn_from_page("site".to_string(), page);
    assert_eq!(p.item_selector.as_deref(), Some("article"));
    assert_eq!(p.link_selector.as_deref(), Some("a"));
    assert!(p.confidence > 0);
    let empty = learn_from_page("site".to_string(), "<p>nada</p>");
    assert_eq!((empty.item_selector, empty.confidence), (None, 0));
}
