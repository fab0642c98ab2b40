use lauyer::body::{
    build_client_variables, build_detail_body, build_detail_body_at, build_empty_es_source,
    build_empty_es_template, build_screen_variables,
};
use lauyer::json::Json;

fn entries(j: &Json) -> &Vec<(String, Json)> {
    match j {
        Json::Object(e) => e,
        _ => panic!("expected an object"),
    }
}

fn text(j: Option<&Json>) -> &str {
    j.unwrap().as_str().unwrap()
}

fn num(j: Option<&Json>) -> &str {
    match j.unwrap() {
        Json::Number(n) => n.as_str(),
        _ => panic!("expected a number"),
    }
}

fn boolean(j: Option<&Json>) -> bool {
    match j.unwrap() {
        Json::Bool(b) => *b,
        _ => panic!("expected a bool"),
    }
}

fn is_empty_list(j: Option<&Json>) -> bool {
    let j = j.unwrap();
    matches!(j.get("List"), Some(Json::Array(a)) if a.is_empty()) && text(j.get("EmptyListItem")) == ""
}

#[test]
fn detail_body_carries_request() {
    let body = build_detail_body_at("1.2.3", "98765", "Decreto-Lei", "10-B/2024/1", 1999, "2026-03-01", "2026-03-01T10:00:00.000+00:00", "guid-1");
    let keys: Vec<&str> = entries(&body).iter().map(|(k, _)| k.as_str()).collect();
    assert_eq!(keys, vec!["versionInfo", "viewName", "screenData", "clientVariables"]);
    let version = body.get("versionInfo").unwrap();
    assert_eq!(text(version.get("moduleVersion")), "1.2.3");
    assert_eq!(text(version.get("apiVersion")), "xbG2d6DNViOgTiMUtZPtGw");
    assert_eq!(text(body.get("viewName")), "Legislacao_Conteudos.Conteudo_Detalhe");
    let vars = body.get("screenData").unwrap().get("variables").unwrap();
    assert_eq!(text(vars.get("Key")), "10-b-2024-98765");
    assert_eq!(text(vars.get("Numero")), "10-b");
    assert_eq!(num(vars.get("Year")), "2024");
    assert_eq!(text(vars.get("Tipo")), "decreto-lei");
    assert_eq!(text(vars.get("DipLegisId")), "98765");
    assert_eq!(text(vars.get("ConteudoId")), "98765");
    let client = body.get("clientVariables").unwrap();
    assert_eq!(text(client.get("Data")), "2026-03-01");
    assert_eq!(text(client.get("DateTime")), "2026-03-01T10:00:00.000+00:00");
    assert_eq!(text(client.get("Session_GUID")), "guid-1");
}

#[test]
fn detail_body_uses_fallback_year() {
    let body = build_detail_body_at("v", "5", "Lei", "7", 2021, "d", "n", "g");
    let vars = body.get("screenData").unwrap().get("variables").unwrap();
    assert_eq!(text(vars.get("Key")), "7-2021-5");
    assert_eq!(num(vars.get("Year")), "2021");
}

#[test]
fn detail_body_now_has_clock_and_guid() {
    let body = build_detail_body("v", "5", "Portaria", "12/2026", 0);
    let client = body.get("clientVariables").unwrap();
    let today = text(client.get("Data"));
    assert_eq!(today.len(), 10);
    assert_eq!(&today[4..5], "-");
    let guid = text(client.get("Session_GUID"));
    assert_eq!(guid.len(), 36);
    let vars = body.get("screenData").unwrap().get("variables").unwrap();
    assert_eq!(text(vars.get("Key")), "12-2026-5");
}

#[test]
fn screen_variables_table() {
    let vars = build_screen_variables("11", "slug", 2020, "tipo", "key");
    assert_eq!(entries(&vars).len(), 45);
    assert_eq!(text(vars.get("ParteIdAux")), "0");
    assert_eq!(text(vars.get("Comes1")), "Pesquisa");
    assert_eq!(num(vars.get("length")), "0");
    assert_eq!(num(vars.get("_keyInDataFetchStatus")), "1");
    assert!(boolean(vars.get("ShowDiplomaAtoOriginalTexto")));
    assert!(!boolean(vars.get("IsRended")));
    assert_eq!(text(vars.get("Key")), "key");
    assert_eq!(text(vars.get("Tipo")), "tipo");
    assert!(vars.get("DetalheConteudoElastic").unwrap().get("Hits").is_some());
}

#[test]
fn client_variables_table() {
    let c = build_client_variables("t", "n", "g");
    assert_eq!(entries(&c).len(), 16);
    assert_eq!(text(c.get("CookiePath")), "/dr/");
    assert_eq!(num(c.get("StartIndex")), "0");
    assert!(boolean(c.get("Serie")));
    assert_eq!(text(c.get("FullHTMLURL")), "https://diariodarepublica.pt/dr/home");
}

#[test]
fn es_source_table() {
    let src = build_empty_es_source();
    assert_eq!(entries(&src).len(), 79);
    assert_eq!(text(src.get("DataEntradaVigor")), "1900-01-01T00:00:00");
    assert_eq!(text(src.get("Views")), "0");
    assert!(!boolean(src.get("CPAlteracao")));
    assert!(is_empty_list(src.get("Thesaurus_descritor")));
}

#[test]
fn es_template_shape() {
    let t = build_empty_es_template();
    assert_eq!(text(t.get("Took")), "0");
    assert!(!boolean(t.get("Timed_out")));
    let aggs = t.get("aggregations").unwrap();
    assert_eq!(entries(aggs).len(), 16);
    let serie = aggs.get("SerieAgg").unwrap();
    assert_eq!(text(serie.get("sum_other_doc_count")), "0");
    let item = serie.get("buckets").unwrap().get("EmptyListItem").unwrap();
    assert!(!boolean(item.get("isActive")));
    let hits = t.get("Hits").unwrap().get("Hits").unwrap();
    let highlight = hits.get("EmptyListItem").unwrap().get("Highlight").unwrap();
    assert!(is_empty_list(highlight.get("Texto")));
    assert_eq!(text(hits.get("EmptyListItem").unwrap().get("source").unwrap().get("NumeroInt")), "0");
}

#[test]
fn detail_body_clock_and_guid_forms() {
    let body = build_detail_body("v", "5", "Portaria", "12/2026", 0);
    let client = body.get("clientVariables").unwrap();
    let today = text(client.get("Data"));
    assert!(chrono::NaiveDate::parse_from_str(today, "%Y-%m-%d").is_ok());
    let now = text(client.get("DateTime"));
    assert!(chrono::DateTime::parse_from_str(now, "%Y-%m-%dT%H:%M:%S%.3f%:z").is_ok());
    assert_eq!(now.as_bytes()[10], b'T');
    assert_eq!(now.as_bytes()[19], b'.');
    let guid = text(client.get("Session_GUID"));
    for (i, c) in guid.chars().enumerate() {
        if [8, 13, 18, 23].contains(&i) {
            assert_eq!(c, '-');
        } else {
            assert!(c.is_ascii_digit() || ('a'..='f').contains(&c));
        }
    }
    assert_eq!(guid.as_bytes()[14], b'4');
    assert!(b"89ab".contains(&guid.as_bytes()[19]));
}

#[test]
fn law_detail_body_varies_only_in_clock_example() {
    let a = build_detail_body_at("v", "5", "Lei", "3/2020", 0, "2026-01-01", "t1", "g1");
    let b = build_detail_body_at("v", "5", "Lei", "3/2020", 0, "2027-02-02", "t2", "g2");
    let (ea, eb) = (entries(&a), entries(&b));
    assert_eq!(ea.len(), eb.len());
    for ((ka, va), (kb, vb)) in ea.iter().zip(eb.iter()) {
        assert_eq!(ka, kb);
        if ka != "clientVariables" {
            assert_eq!(format!("{va:?}"), format!("{vb:?}"));
        }
    }
    let (ca, cb) = (a.get("clientVariables").unwrap(), b.get("clientVariables").unwrap());
    for ((ka, va), (kb, vb)) in entries(ca).iter().zip(entries(cb).iter()) {
        assert_eq!(ka, kb);
        if !["Data", "DateTime", "Session_GUID"].contains(&ka.as_str()) {
            assert_eq!(format!("{va:?}"), format!("{vb:?}"));
        }
    }
    assert_eq!(text(cb.get("Data")), "2027-02-02");
}

#[test]
fn law_screen_variables_vary_only_in_arguments_example() {
    let a = build_screen_variables("1", "s", 1, "t", "k");
    let b = build_screen_variables("2", "u", 2, "v", "m");
    let dynamic = ["DipLegisId", "ConteudoId", "Numero", "Year", "Tipo", "Key"];
    for ((ka, va), (kb, vb)) in entries(&a).iter().zip(entries(&b).iter()) {
        assert_eq!(ka, kb);
        if !dynamic.contains(&ka.as_str()) {
            assert_eq!(format!("{va:?}"), format!("{vb:?}"));
        } else {
            assert_ne!(format!("{va:?}"), format!("{vb:?}"));
        }
    }
}
