use scraper_bot::dates::{parse_rfc2822_local, SimpleDate, SimpleDateTime};
use scraper_bot::html::{select_in_document, select_in_fragment, select_text_in};
use scraper_bot::models::SearchConfig;
use scraper_bot::scraper::borm::{announcement_url, parse_sumario, parse_ultimo};
use scraper_bot::scraper::caib::{parse_eboib_rss, parse_eboib_search_html};
use scraper_bot::scraper::contratacion_estado::{detail_url, extract_id_from_onclick, parse_date, DETAIL_URL_BASE};
use scraper_bot::scraper::feed::read_feed;
use scraper_bot::scraper::{bocyl, boe, scraper_kind, ScrapedItem, ScraperKind};
use std::time::Instant;

#[test]
fn test_borm_url_construction() {
    let url = announcement_url("842595", "1913", "2026");
    assert_eq!(url, "https://www.borm.es/#/home/anuncio/842595/1913/2026");
}

#[test]
fn test_parse_ultimo() {
    let html = r#"<html><body><boletindto><id>110496</id><numero>99</numero><ano>2026</ano><fechapublicacion>02-05-2026</fechapublicacion></boletindto></body></html>"#;
    let result = parse_ultimo(html);
    assert!(result.is_some());
    let (fecha, id) = result.unwrap();
    assert_eq!(id, "110496");
    assert_eq!(fecha, SimpleDate { year: 2026, month: 5, day: 2 });
}

#[test]
fn test_parse_sumario() {
    let html = r#"<html><body><sumarioboletindto><anunciosboletin><anunciosboletin>
        <id>842595</id>
        <sumario>Orden de 21 de abril de 2026 de contratacion</sumario>
        <numero>1913</numero>
        <ano>2026</ano>
        <anunciante>Consejeria de Economia</anunciante>
        <apartado>I. Comunidad Autonoma</apartado>
        <subapartado>2. Autoridades y Personal</subapartado>
        <fechapublicacion>02-05-2026</fechapublicacion>
    </anunciosboletin></anunciosboletin></sumarioboletindto></body></html>"#;

    let fecha = SimpleDate { year: 2026, month: 5, day: 2 };
    let items = parse_sumario(html, &vec![], fecha);
    assert_eq!(items.len(), 1);
    assert_eq!(items[0].external_id.as_deref(), Some("2026/1913"));
    assert_eq!(
        items[0].url.as_deref(),
        Some("https://www.borm.es/#/home/anuncio/842595/1913/2026")
    );
    assert_eq!(
        items[0].description.as_deref(),
        Some("I. Comunidad Autonoma — 2. Autoridades y Personal")
    );
}

#[test]
fn test_parse_sumario_with_keyword_filter() {
    let html = r#"<html><body><sumarioboletindto><anunciosboletin>
        <anunciosboletin><id>1</id><sumario>contratacion public</sumario><numero>10</numero><ano>2026</ano></anunciosboletin>
        <anunciosboletin><id>2</id><sumario>subvencion agricultura</sumario><numero>11</numero><ano>2026</ano></anunciosboletin>
    </anunciosboletin></sumarioboletindto></body></html>"#;

    let fecha = SimpleDate { year: 2026, month: 5, day: 2 };
    let keywords: Vec<String> = vec!["contratacion".to_string()];
    let items = parse_sumario(html, &keywords, fecha);
    assert_eq!(items.len(), 1);
    assert_eq!(items[0].external_id.as_deref(), Some("2026/10"));
}

#[test]
fn borm_title_is_cut_at_a_character_boundary() {
    let long = "á".repeat(150);
    let html = format!(
        "<html><body><x><anunciosboletin><anunciosboletin><id>1</id><sumario>{}</sumario><numero>7</numero><ano>2025</ano><fechapublicacion>31-12-2025</fechapublicacion></anunciosboletin></anunciosboletin></x></body></html>",
        long
    );
    let items = parse_sumario(&html, &vec![], SimpleDate { year: 2026, month: 1, day: 1 });
    assert_eq!(items.len(), 1);
    assert_eq!(items[0].title.as_deref(), Some("á".repeat(100).as_str()));
    assert_eq!(items[0].description, None);
    assert_eq!(
        items[0].published_at,
        Some(SimpleDateTime { date: SimpleDate { year: 2025, month: 12, day: 31 }, hour: 0, minute: 0, second: 0 })
    );
}

#[test]
fn test_parse_eboib_search_html() {
    let html = r#"
    <html><body>
    <ul>
        <li>
            <div class="caja">
                <div class="interior">
                    <span class="num">051</span>
                    <a href="/eboibfront/null/2026/12264/">BOIB Núm 051 - 21 / abril / 2026</a>
                </div>
            </div>
        </li>
        <li>
            <div class="caja">
                <div class="interior">
                    <span class="num">050</span>
                    <a href="/eboibfront/null/2026/12263/">BOIB Núm 050 - 18 / abril / 2026</a>
                </div>
            </div>
        </li>
    </ul>
    </body></html>
    "#;

    let items = match parse_eboib_search_html(html, &vec![]) {
        Ok(v) => v,
        Err(_) => panic!("the page should be read"),
    };
    assert_eq!(items.len(), 2);
    assert!(items[0].url.as_ref().unwrap().contains("/ca/"));
    assert_eq!(items[0].url.as_deref(), Some("https://www.caib.es/eboibfront/ca/2026/12264/"));
    assert_eq!(items[0].title.as_deref(), Some("BOIB Núm 051 - 21 / abril / 2026"));
    assert_eq!(items[0].external_id.as_deref(), Some("caib-boib-051"));
}

#[test]
fn test_parse_eboib_rss() {
    let rss = r#"
    <?xml version="1.0" encoding="UTF-8"?>
    <rss version="2.0">
        <channel>
            <item>
                <title>BOIB Núm 051/2026</title>
                <link>https://www.caib.es/eboibfront/ca/2026/12264</link>
                <pubDate>Tue, 21 Apr 2026 06:30:00 GMT</pubDate>
            </item>
        </channel>
    </rss>
    "#;

    let items = match parse_eboib_rss(rss, &vec![]) {
        Ok(v) => v,
        Err(_) => panic!("the feed should be read"),
    };
    assert_eq!(items.len(), 1);
    assert_eq!(items[0].title.as_ref().unwrap(), "BOIB Núm 051/2026");
}

#[test]
fn test_keyword_filtering() {
    let html = r#"
    <html><body>
    <ul>
        <li>
            <div class="caja">
                <div class="interior">
                    <span class="num">051</span>
                    <a href="/eboibfront/null/2026/12264/">BOIB Núm 051 - 21 / abril / 2026</a>
                </div>
            </div>
        </li>
        <li>
            <div class="caja">
                <div class="interior">
                    <span class="num">050</span>
                    <a href="/eboibfront/null/2026/12263/">Licitación obra pública</a>
                </div>
            </div>
        </li>
    </ul>
    </body></html>
    "#;

    let keywords = vec!["licitación".to_string(), "obra".to_string()];
    let items = match parse_eboib_search_html(html, &keywords) {
        Ok(v) => v,
        Err(_) => panic!("the page should be read"),
    };
    assert_eq!(items.len(), 1);
    assert!(items[0].title.as_ref().unwrap().contains("Licitación"));
}

const CAIB_EBOIB_HTML_SAMPLE: &str = r#"
<!DOCTYPE html>
<html>
<body>
<div id="contenidor">
    <ul class="llistat-resultats">
        <li>
            <div class="caja">
                <div class="interior">
                    <span class="num">051</span>
                    <a href="/eboibfront/null/2026/12264/">BOIB Num 051 - 21 / abril / 2026</a>
                    <p class="detall">Anunci de licitacio per a l'obra publica de construccio d'un institut</p>
                </div>
            </div>
        </li>
        <li>
            <div class="caja">
                <div class="interior">
                    <span class="num">050</span>
                    <a href="/eboibfront/null/2026/12263/">BOIB Num 050 - 18 / abril / 2026</a>
                    <p class="detall">Licitacio de serveis de prevencio de riscos laborals</p>
                </div>
            </div>
        </li>
        <li>
            <div class="caja">
                <div class="interior">
                    <span class="num">049</span>
                    <a href="/eboibfront/null/2026/12262/">BOIB Num 049 - 17 / abril / 2026</a>
                    <p class="detall">Edicte sobre subministrament d'equipament informatic</p>
                </div>
            </div>
        </li>
    </ul>
</div>
</body>
</html>
"#;

#[test]
fn test_caib_parse_html_extracts_fields() {
    let items = match parse_eboib_search_html(CAIB_EBOIB_HTML_SAMPLE, &vec![]) {
        Ok(v) => v,
        Err(_) => panic!("the page should be read"),
    };

    assert_eq!(items.len(), 3, "Esperaba 3 items extraidos");

    assert_eq!(items[0].external_id.as_deref(), Some("caib-boib-051"));
    assert!(items[0].title.as_ref().unwrap().contains("BOIB Num 051"));
    assert!(items[0].url.as_ref().unwrap().contains("/ca/"));
    assert!(!items[0].url.as_ref().unwrap().contains("/null/"));

    assert!(items[1].url.as_ref().unwrap().contains("/eboibfront/ca/"));
}

#[test]
fn test_caib_keyword_filtering() {
    let lis = select_in_document(CAIB_EBOIB_HTML_SAMPLE, "li").unwrap();
    let keywords = vec!["licitacio", "prevencio"];
    let mut matched_items = Vec::new();

    for li in &lis {
        let link_text = select_text_in(li, "a[href]").unwrap_or_default();
        let detail_text = select_text_in(li, "p.detall").unwrap_or_default();
        let search_text = format!("{} {}", link_text, detail_text).to_lowercase();
        let matches = keywords.iter().any(|kw| search_text.contains(&kw.to_lowercase()));
        if matches {
            matched_items.push((link_text, detail_text));
        }
    }

    assert_eq!(matched_items.len(), 2, "Esperaba 2 items con keywords de licitacion");
    assert!(matched_items.iter().any(|(_, d)| d.contains("prevencio")));
}

const CAIB_RSS_SAMPLE: &str = r#"
<?xml version="1.0" encoding="UTF-8"?>
<rss version="2.0">
    <channel>
        <title>BOIB RSS</title>
        <item>
            <title>BOIB Num 051/2026</title>
            <link>https://www.caib.es/eboibfront/ca/2026/12264</link>
            <description>Anunci de licitacio</description>
            <pubDate>Tue, 21 Apr 2026 06:30:00 GMT</pubDate>
        </item>
        <item>
            <title>BOIB Num 050/2026</title>
            <link>https://www.caib.es/eboibfront/ca/2026/12263</link>
            <description>Edicte administratiu</description>
            <pubDate>Mon, 20 Apr 2026 06:30:00 GMT</pubDate>
        </item>
    </channel>
</rss>
"#;

#[test]
fn test_caib_parse_rss() {
    let items = match parse_eboib_rss(CAIB_RSS_SAMPLE, &vec![]) {
        Ok(v) => v,
        Err(_) => panic!("the feed should be read"),
    };

    assert_eq!(items.len(), 2);

    let item = &items[0];
    assert_eq!(item.title.as_deref(), Some("BOIB Num 051/2026"));
    assert_eq!(item.url.as_deref(), Some("https://www.caib.es/eboibfront/ca/2026/12264"));
    assert_eq!(item.external_id.as_deref(), Some("caib-boib-051-2026"));

    assert!(item.published_at.is_some());
    let date = item.published_at.unwrap().date;
    assert_eq!(date.day, 21);
    assert_eq!(date.month, 4);
    assert_eq!(date.year, 2026);
}

#[test]
fn caib_rss_that_is_not_a_feed_is_an_error() {
    match parse_eboib_rss("esto no es un feed", &vec![]) {
        Ok(_) => panic!("text that is not a feed must be refused"),
        Err(e) => assert!(e.message.starts_with("Error parseando RSS del CAIB: ")),
    }
}

#[test]
fn test_bocyl_rss_parse() {
    let rss = r#"<?xml version="1.0" encoding="UTF-8"?>
    <rss xmlns:dc="http://purl.org/dc/elements/1.1/" version="2.0">
      <channel>
        <title>BOCYL: I. COMUNIDAD DE CASTILLA Y LEÓN</title>
        <item>
          <title>RESOLUCIÓN de la Consejería de Medio Ambiente</title>
          <link>https://bocyl.jcyl.es/verDocumento.html?id=12345</link>
          <description>Anuncio de licitación para servicios de prevención</description>
          <guid>https://bocyl.jcyl.es/verDocumento.html?id=12345</guid>
          <pubDate>Fri, 02 May 2026 00:00:00 +0200</pubDate>
        </item>
      </channel>
    </rss>"#;

    let items = match bocyl::parse_feed(rss.as_bytes(), None) {
        Ok(v) => v,
        Err(_) => panic!("the feed should be read"),
    };
    assert_eq!(items.len(), 1);
    assert!(items[0].title.as_ref().unwrap().contains("RESOLUCIÓN"));
    assert_eq!(items[0].external_id.as_deref(), Some("https://bocyl.jcyl.es/verDocumento.html?id=12345"));
}

#[test]
fn test_boe_rss_parse_sample() {
    let rss_xml = r#"<?xml version="1.0" encoding="ISO-8859-1"?>
<rss version="2.0">
  <channel>
    <title>BOE</title>
    <item>
      <title>Resolucion de prueba</title>
      <link>https://www.boe.es/diario_boe/txt.php?id=BOE-A-2026-1234</link>
      <description>Descripcion de prueba</description>
      <guid isPermaLink="true">https://www.boe.es/boe/dias/2026/04/18/pdfs/BOE-A-2026-1234.pdf</guid>
      <pubDate>Sat, 18 Apr 2026 00:00:00 +0200</pubDate>
    </item>
  </channel>
</rss>"#;

    let items = match boe::parse_feed(rss_xml.as_bytes(), None, None) {
        Ok(v) => v,
        Err(_) => panic!("the feed should be read"),
    };
    assert_eq!(items.len(), 1);
    let item = &items[0];
    assert_eq!(item.title.as_deref(), Some("Resolucion de prueba"));
    assert!(item.url.as_ref().unwrap().contains("boe.es"));
    assert_eq!(
        item.external_id.as_deref(),
        Some("https://www.boe.es/boe/dias/2026/04/18/pdfs/BOE-A-2026-1234.pdf")
    );
    assert_eq!(
        item.raw_data.as_deref(),
        Some("{\"categories\":[],\"description\":\"Descripcion de prueba\",\"guid\":\"https://www.boe.es/boe/dias/2026/04/18/pdfs/BOE-A-2026-1234.pdf\",\"link\":\"https://www.boe.es/diario_boe/txt.php?id=BOE-A-2026-1234\",\"pub_date\":\"Sat, 18 Apr 2026 00:00:00 +0200\",\"title\":\"Resolucion de prueba\"}")
    );
}

#[test]
fn test_boe_keyword_filtering_ingenieros() {
    let rss_xml = r#"<?xml version="1.0" encoding="UTF-8"?>
<rss version="2.0">
  <channel>
    <title>BOE - Oposiciones</title>
    <item>
      <title>Oferta de empleo publico para ingenieros industriales</title>
      <link>https://www.boe.es/diario_boe/txt.php?id=BOE-A-2026-1111</link>
      <description>Convocatoria de oposiciones para el Cuerpo de Ingenieros Industriales</description>
      <pubDate>Tue, 15 Apr 2026 10:00:00 +0200</pubDate>
    </item>
    <item>
      <title>Oferta de empleo para administrativos</title>
      <link>https://www.boe.es/diario_boe/txt.php?id=BOE-A-2026-1112</link>
      <description>Convocatoria para administrativos generales</description>
      <pubDate>Wed, 16 Apr 2026 10:00:00 +0200</pubDate>
    </item>
    <item>
      <title>Resolucion de ingenieria industrial y civil</title>
      <link>https://www.boe.es/diario_boe/txt.php?id=BOE-A-2026-1113</link>
      <description>Plazas para ingenieros en general</description>
      <pubDate>Thu, 17 Apr 2026 10:00:00 +0200</pubDate>
    </item>
    <item>
      <title>Concurso de meritos para tecnicos</title>
      <link>https://www.boe.es/diario_boe/txt.php?id=BOE-A-2026-1114</link>
      <description>Concurso para tecnicos especializados</description>
      <pubDate>Fri, 18 Apr 2026 10:00:00 +0200</pubDate>
    </item>
  </channel>
</rss>"#;

    let items = match boe::parse_feed(rss_xml.as_bytes(), Some("ingeniero industrial"), None) {
        Ok(v) => v,
        Err(_) => panic!("the feed should be read"),
    };
    let matched_items: Vec<String> = items.iter().map(|i| i.title.clone().unwrap_or_default()).collect();

    assert_eq!(matched_items.len(), 2, "Esperaba 2 items coincidentes, encontrados: {:?}", matched_items);
    assert!(matched_items.iter().any(|t| t.contains("ingenieros industriales")));
    assert!(matched_items.iter().any(|t| t.contains("ingenieria industrial")));
}

#[test]
fn boe_filters_leave_out_excluded_entries() {
    let rss_xml = r#"<?xml version="1.0" encoding="UTF-8"?>
<rss version="2.0"><channel><title>BOE</title>
<item><title>Obras en Baleares</title><link>https://www.boe.es/a</link></item>
<item><title>Obras en Cáceres</title><link>https://www.boe.es/b</link></item>
</channel></rss>"#;
    let items = match boe::parse_feed(rss_xml.as_bytes(), Some("obras"), Some("-cáceres")) {
        Ok(v) => v,
        Err(_) => panic!("the feed should be read"),
    };
    assert_eq!(items.len(), 1);
    assert_eq!(items[0].title.as_deref(), Some("Obras en Baleares"));
    assert_eq!(items[0].external_id.as_deref(), Some("https://www.boe.es/a"));
}

#[test]
fn boe_feed_address() {
    assert_eq!(boe::feed_url("https://www.boe.es/rss/boe.php?s=2B"), "https://www.boe.es/rss/boe.php?s=2B");
    assert_eq!(boe::feed_url("https://example.com"), "https://www.boe.es/rss/canal_per.php?l=p&c=140");
}

#[test]
fn test_parse_rfc2822_with_timezones() {
    let test_cases = vec![
        ("Sat, 18 Apr 2026 00:00:00 +0200", 2026, 4, 18),
        ("Tue, 15 Apr 2025 10:30:45 +0000", 2025, 4, 15),
        ("Wed, 16 Apr 2025 10:00:00 -0500", 2025, 4, 16),
        ("Mon, 01 Jan 2024 00:00:00 +0000", 2024, 1, 1),
    ];

    for (date_str, expected_year, expected_month, expected_day) in test_cases {
        let parsed = parse_rfc2822_local(date_str);
        assert!(parsed.is_some(), "No se pudo parsear: {}", date_str);
        let date = parsed.unwrap().date;
        assert_eq!(date.year, expected_year, "Ano incorrecto para {}", date_str);
        assert_eq!(date.month, expected_month, "Mes incorrecto para {}", date_str);
        assert_eq!(date.day, expected_day, "Dia incorrecto para {}", date_str);
    }
}

#[test]
fn test_parse_date() {
    assert!(parse_date("21/04/2026").is_some());
    assert!(parse_date("").is_none());
    assert!(parse_date("invalid").is_none());
}

#[test]
fn test_detail_url_construction() {
    let id = "JNDTgEobq1oXhk1FZxEyvw%3D%3D";
    let url = detail_url(id);
    assert!(url.contains("idEvl="));
    assert!(url.contains(id));
}

#[test]
fn test_contratacion_estado_extract_id_from_onclick() {
    let onclick_samples = vec![
        ("detalleLicitacion('JNDTgEobq1oXhk1FZxEyvw%3D%3D')", Some("JNDTgEobq1oXhk1FZxEyvw%3D%3D")),
        ("window.location='deeplink:detalle_licitacion&idEvl=ABC123'", Some("ABC123")),
        ("verDetalle('xyz789', 'param2')", Some("xyz789")),
        ("no valid onclick", None),
    ];

    for (onclick, expected) in onclick_samples {
        let extracted = extract_id_from_onclick(onclick);
        assert_eq!(extracted, expected.map(|s| s.to_string()), "Fallo extrayendo ID de: {}", onclick);
    }
}

#[test]
fn test_contratacion_estado_detail_url_construction() {
    let base = "https://contrataciondelestado.es/wps/poc?uri=deeplink:detalle_licitacion&idEvl=";
    assert_eq!(DETAIL_URL_BASE, base);
    let test_ids = vec!["JNDTgEobq1oXhk1FZxEyvw%3D%3D", "ABC123-TEST", "simpleId123"];

    for id in test_ids {
        let url = detail_url(id);
        assert!(url.contains("deeplink:detalle_licitacion"));
        assert!(url.contains("idEvl="));
        assert!(url.ends_with(id));
    }
}

#[test]
fn test_contratacion_estado_date_parsing() {
    let test_cases = vec![
        ("21/04/2026", Some(SimpleDate { year: 2026, month: 4, day: 21 })),
        ("01/01/2024", Some(SimpleDate { year: 2024, month: 1, day: 1 })),
        ("31/12/2025", Some(SimpleDate { year: 2025, month: 12, day: 31 })),
        ("", None),
        ("invalid", None),
        ("2026-04-21", None),
    ];

    for (date_str, expected) in test_cases {
        let result = parse_date(date_str).map(|dt| dt.date);
        assert_eq!(result, expected, "Fallo parseando fecha: {}", date_str);
    }
}

#[test]
fn portal_dates_that_do_not_exist_are_refused() {
    assert_eq!(parse_date("30/02/2026"), None);
    assert_eq!(parse_date("29/02/2024").map(|d| d.date), Some(SimpleDate { year: 2024, month: 2, day: 29 }));
}

fn create_test_search_config(search_type: &str, keywords: Option<&str>) -> SearchConfig {
    let epoch = SimpleDateTime { date: SimpleDate { year: 2026, month: 1, day: 1 }, hour: 0, minute: 0, second: 0 };
    SearchConfig {
        id: 1,
        telegram_id: 12345,
        name: "Test Config".to_string(),
        url: "https://example.com/test".to_string(),
        search_type: search_type.to_string(),
        keywords: keywords.map(|s| s.to_string()),
        css_selector: None,
        notify_mode: "immediate".to_string(),
        filters: None,
        is_active: true,
        created_at: epoch,
        updated_at: epoch,
    }
}

#[test]
fn test_run_scrape_dispatcher_routes() {
    let test_cases = vec![
        ("contratacion_estado", ScraperKind::ContratacionEstado),
        ("boe_rss", ScraperKind::BoeRss),
        ("caib_licitaciones", ScraperKind::CaibLicitaciones),
        ("generic_html", ScraperKind::GenericHtml),
        ("unknown_type", ScraperKind::GenericHtml),
    ];

    for (search_type, kind) in test_cases {
        let config = create_test_search_config(search_type, Some("test,keywords"));
        assert_eq!(config.search_type, search_type);
        assert!(config.keywords.is_some());
        assert_eq!(scraper_kind(&config.search_type), kind);
    }
}

#[test]
fn test_scraped_item_structure() {
    let item = ScrapedItem {
        title: Some("Test Title".to_string()),
        description: Some("Test Description".to_string()),
        url: Some("https://example.com/test".to_string()),
        external_id: Some("TEST-123".to_string()),
        raw_data: Some(r#"{"key":"value"}"#.to_string()),
        published_at: Some(SimpleDateTime { date: SimpleDate { year: 2026, month: 4, day: 21 }, hour: 9, minute: 0, second: 0 }),
    };

    assert!(item.title.is_some());
    assert_eq!(item.title.unwrap(), "Test Title");
    assert!(item.external_id.is_some());
    assert!(item.url.as_ref().unwrap().starts_with("https://"));
}

#[test]
fn test_rss_parse_performance() {
    let mut rss_xml = r#"<?xml version="1.0" encoding="UTF-8"?>
<rss version="2.0">
  <channel>
    <title>BOE Performance Test</title>
"#
    .to_string();

    for i in 0..100 {
        rss_xml.push_str(&format!(
            r#"
    <item>
      <title>Oferta {} de empleo</title>
      <link>https://www.boe.es/item/{}</link>
      <description>Descripcion del item {}</description>
      <pubDate>Tue, {} Apr 2026 10:00:00 +0200</pubDate>
    </item>
"#,
            i,
            i,
            i,
            (i % 30) + 1
        ));
    }

    rss_xml.push_str("  </channel>\n</rss>");

    let start = Instant::now();
    let entries = read_feed(rss_xml.as_bytes()).unwrap();
    let elapsed = start.elapsed();

    assert_eq!(entries.len(), 100);
    assert!(elapsed.as_millis() < 100, "El parseo deberia ser mas rapido: {:?}", elapsed);
}

#[test]
fn test_html_parse_performance() {
    let mut html = "<html><body><ul>".to_string();
    for i in 0..100 {
        html.push_str(&format!(
            r#"
<li>
  <div class="caja">
    <div class="interior">
      <span class="num">{:03}</span>
      <a href="/test/{}/">Licitacion numero {}</a>
      <p>Descripcion de la licitacion {}</p>
    </div>
  </div>
</li>
"#,
            i, i, i, i
        ));
    }
    html.push_str("</ul></body></html>");

    let start = Instant::now();
    let document = select_in_document(&html, "li");
    let elapsed = start.elapsed();

    assert_eq!(document.map(|v| v.len()), Some(100));
    assert!(elapsed.as_millis() < 50, "El parseo HTML deberia ser mas rapido: {:?}", elapsed);
}

#[test]
fn fragments_are_selected_inside_an_element() {
    let lis = select_in_document("<ul><li><a href='/x'>uno</a><a href='/y'>dos</a></li></ul>", "li").unwrap();
    let links = select_in_fragment(&lis[0].html, "a").unwrap();
    assert_eq!(links.len(), 2);
    assert_eq!(links[1].href.as_deref(), Some("/y"));
    assert!(select_in_document("<p>x</p>", "[[[").is_none());
}
