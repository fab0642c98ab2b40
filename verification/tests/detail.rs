use lauyer::date::DrDate;
use lauyer::detail::{
    check_detail_status, derive_slug_and_year, detail_from_fields, detail_from_response,
    parse_detail_response, tipo_slug, DrError, DETAIL_URL,
};
use lauyer::json::Json;

fn s(v: &str) -> Json {
    Json::Str(v.to_string())
}

fn obj(entries: Vec<(&str, Json)>) -> Json {
    Json::Object(entries.into_iter().map(|(k, v)| (k.to_string(), v)).collect())
}

fn full_detail() -> Json {
    obj(vec![
        ("Id", s("abc-1")),
        ("Titulo", s("Portaria n.º 123-A/2026/1")),
        ("Numero", s("123-A/2026/1")),
        ("Publicacao", s("Diário da República n.º 10/2026")),
        ("Sumario", s("Aprova o regulamento.")),
        ("Texto", s("Artigo 1.º")),
        ("DataPublicacao", s("2026-01-15")),
        ("Emissor", s("Finanças")),
        ("Serie", s("I")),
        ("TipoDiploma", s("Portaria")),
        ("Vigencia", s("Em vigor")),
        ("URL_PDF", s("https://example.pt/a.pdf")),
        ("ELI", s("https://data.dre.pt/eli/port/123-A/2026")),
        ("Notas", s("")),
        ("Pagina", s("3")),
    ])
}

fn response_with(detail: Json) -> Json {
    obj(vec![("data", obj(vec![("DetalheConteudo", detail)]))])
}

#[test]
fn derive_slug_and_year_examples() {
    assert_eq!(derive_slug_and_year("123-A/2026/1", 1999), ("123-a".to_string(), 2026));
    assert_eq!(derive_slug_and_year("79-A/2026", 1999), ("79-a".to_string(), 2026));
}

#[test]
fn derive_slug_and_year_falls_back() {
    assert_eq!(derive_slug_and_year("79-A", 2025), ("79-a".to_string(), 2025));
    assert_eq!(derive_slug_and_year("79-A/abc", 2025), ("79-a".to_string(), 2025));
    assert_eq!(derive_slug_and_year("79-A/", 2025), ("79-a".to_string(), 2025));
    assert_eq!(derive_slug_and_year("79-A/4294967296", 7), ("79-a".to_string(), 7));
    assert_eq!(derive_slug_and_year("79-A/-5", 7), ("79-a".to_string(), 7));
    assert_eq!(derive_slug_and_year("", 3), ("".to_string(), 3));
}

#[test]
fn derive_slug_and_year_reads_like_parse() {
    assert_eq!(derive_slug_and_year("1/+42", 0), ("1".to_string(), 42));
    assert_eq!(derive_slug_and_year("1/4294967295", 0), ("1".to_string(), 4294967295));
    assert_eq!(derive_slug_and_year("/2020", 0), ("".to_string(), 2020));
    assert_eq!(derive_slug_and_year("Ç-1/0007/x/y", 0), ("ç-1".to_string(), 7));
}

#[test]
fn tipo_slug_examples() {
    assert_eq!(tipo_slug("Portaria"), "portaria");
    assert_eq!(tipo_slug("Decreto-Lei"), "decreto-lei");
}

#[test]
fn parse_detail_response_reads_fields() {
    let r = detail_from_response(&response_with(full_detail()), "999", "Lei").ok().unwrap();
    assert_eq!(r.id, "abc-1");
    assert_eq!(r.titulo, "Portaria n.º 123-A/2026/1");
    assert_eq!(r.numero, "123-A/2026/1");
    assert_eq!(r.publicacao, "Diário da República n.º 10/2026");
    assert_eq!(r.sumario, "Aprova o regulamento.");
    assert_eq!(r.texto, "Artigo 1.º");
    assert_eq!(r.emissor, "Finanças");
    assert_eq!(r.serie, "I");
    assert_eq!(r.tipo_diploma, "Portaria");
    assert_eq!(r.vigencia, "Em vigor");
    assert_eq!(r.url_pdf, "https://example.pt/a.pdf");
    assert_eq!(r.eli, "https://data.dre.pt/eli/port/123-A/2026");
    assert_eq!(r.notas, "");
    assert_eq!(r.pagina, "3");
    assert_eq!(r.dr_url, "https://diariodarepublica.pt/dr/detalhe/portaria/123-a-2026-999");
    let d = r.data_publicacao.unwrap();
    assert_eq!((d.year(), d.month(), d.day()), (2026, 1, 15));
}

#[test]
fn parse_detail_response_missing_fields_are_empty() {
    let detail = obj(vec![("Numero", s("5")), ("Titulo", Json::Number("3".to_string()))]);
    let r = detail_from_response(&response_with(detail), "42", "Decreto-Lei").ok().unwrap();
    assert_eq!(r.id, "");
    assert_eq!(r.titulo, "");
    assert_eq!(r.tipo_diploma, "");
    assert!(r.data_publicacao.is_none());
    // the request's tipo stands in for the missing TipoDiploma, and year 0 for the missing year
    assert_eq!(r.dr_url, "https://diariodarepublica.pt/dr/detalhe/decreto-lei/5-0-42");
}

#[test]
fn parse_detail_response_bad_date_is_none() {
    let detail = obj(vec![("DataPublicacao", s("2023-02-29"))]);
    let r = detail_from_response(&response_with(detail), "1", "Lei").ok().unwrap();
    assert!(r.data_publicacao.is_none());
    let detail = obj(vec![("DataPublicacao", s("15/01/2026"))]);
    let r = detail_from_response(&response_with(detail), "1", "Lei").ok().unwrap();
    assert!(r.data_publicacao.is_none());
    let detail = obj(vec![("DataPublicacao", Json::Null)]);
    let r = detail_from_response(&response_with(detail), "1", "Lei").ok().unwrap();
    assert!(r.data_publicacao.is_none());
}

#[test]
fn parse_detail_response_exception() {
    let outer = obj(vec![("exception", obj(vec![("message", s("Boom"))])), ("data", obj(vec![]))]);
    match detail_from_response(&outer, "1", "Lei") {
        Err(DrError::Session { message }) => assert_eq!(message, "DR detail API exception: Boom"),
        _ => panic!("expected a session error"),
    }
    let outer = obj(vec![("exception", Json::Null)]);
    match detail_from_response(&outer, "1", "Lei") {
        Err(DrError::Session { message }) => {
            assert_eq!(message, "DR detail API exception: Unknown exception")
        }
        _ => panic!("expected a session error"),
    }
}

#[test]
fn parse_detail_response_missing_detail() {
    for outer in [obj(vec![]), obj(vec![("data", obj(vec![]))]), s("x"), obj(vec![("data", s("y"))])] {
        match detail_from_response(&outer, "1", "Lei") {
            Err(DrError::Parse { message, source_url }) => {
                assert_eq!(message, "Missing 'data.DetalheConteudo' in DR detail response");
                assert_eq!(source_url, DETAIL_URL);
            }
            _ => panic!("expected a parse error"),
        }
    }
}

#[test]
fn detail_from_fields_keeps_given_date() {
    let date = DrDate::from_ymd_opt(2020, 2, 29);
    let r = detail_from_fields(&full_detail(), "7", "Lei", date);
    let d = r.data_publicacao.unwrap();
    assert_eq!((d.year(), d.month(), d.day()), (2020, 2, 29));
    assert_eq!(r.dr_url, "https://diariodarepublica.pt/dr/detalhe/portaria/123-a-2026-7");
}

#[test]
fn check_detail_status_cases() {
    assert!(check_detail_status(200, "200 OK").is_ok());
    assert!(check_detail_status(299, "299").is_ok());
    match check_detail_status(404, "404 Not Found") {
        Err(DrError::Session { message }) => {
            assert_eq!(message, "DR detail fetch returned HTTP 404 Not Found")
        }
        _ => panic!("expected a session error"),
    }
    assert!(check_detail_status(199, "199").is_err());
    assert!(check_detail_status(300, "300 Multiple Choices").is_err());
}

#[test]
fn law_slug_and_year_read_back_example() {
    assert_eq!(derive_slug_and_year("Abc-9/2031", 1), ("abc-9".to_string(), 2031));
    assert_eq!(derive_slug_and_year("Abc-9/0/extra", 1), ("abc-9".to_string(), 0));
}

#[test]
fn law_page_address_example() {
    let detail = obj(vec![("Numero", s("10-B/2024"))]);
    let r = detail_from_response(&response_with(detail), "77", "Aviso").ok().unwrap();
    assert_eq!(r.dr_url, "https://diariodarepublica.pt/dr/detalhe/aviso/10-b-2024-77");
}

#[test]
fn law_text_after_second_slash_is_ignored_example() {
    for extra in ["", "1", "x/y", "2030"] {
        assert_eq!(
            derive_slug_and_year(&format!("123-A/2026/{extra}"), 5),
            derive_slug_and_year("123-A/2026", 5)
        );
        assert_eq!(derive_slug_and_year(&format!("9/bad/{extra}"), 5), ("9".to_string(), 5));
    }
}

#[test]
fn json_date_reads_back() {
    for (y, m, d) in [(2026, 1, 15), (7, 2, 28), (-5, 3, 9), (12345, 6, 7)] {
        let date = DrDate::from_ymd_opt(y, m, d);
        let act = detail_from_fields(&full_detail(), "1", "Lei", date);
        let json = act.to_json();
        let text = json.get("data_publicacao").unwrap().as_str().unwrap().to_string();
        let read = detail_from_response(&response_with(obj(vec![("DataPublicacao", s(&text))])), "1", "Lei")
            .ok()
            .unwrap()
            .data_publicacao
            .unwrap();
        assert_eq!(read, date.unwrap());
    }
}

#[test]
fn parse_detail_response_reads_text() {
    let text = r#"{"data": {"DetalheConteudo": {"Id": "7", "Numero": "3-A/2025", "TipoDiploma": "Lei",
        "DataPublicacao": "2025-06-30", "Titulo": "T", "Pagina": 4}}}"#;
    let r = parse_detail_response(text, "88", "Aviso").ok().unwrap();
    assert_eq!(r.id, "7");
    assert_eq!(r.titulo, "T");
    assert_eq!(r.pagina, "");
    assert_eq!(r.dr_url, "https://diariodarepublica.pt/dr/detalhe/lei/3-a-2025-88");
    let d = r.data_publicacao.unwrap();
    assert_eq!((d.year(), d.month(), d.day()), (2025, 6, 30));
}

#[test]
fn parse_detail_response_text_errors() {
    match parse_detail_response("{not json", "1", "Lei") {
        Err(DrError::Parse { message, source_url }) => {
            let e = serde_json::from_str::<serde_json::Value>("{not json").unwrap_err();
            assert_eq!(message, format!("Failed to parse DR detail response: {e}"));
            assert_eq!(source_url, DETAIL_URL);
        }
        _ => panic!("expected a parse error"),
    }
    match parse_detail_response(r#"{"exception": {"message": "x"}}"#, "1", "Lei") {
        Err(DrError::Session { message }) => assert_eq!(message, "DR detail API exception: x"),
        _ => panic!("expected a session error"),
    }
    match parse_detail_response("[]", "1", "Lei") {
        Err(DrError::Parse { message, .. }) => {
            assert_eq!(message, "Missing 'data.DetalheConteudo' in DR detail response")
        }
        _ => panic!("expected a parse error"),
    }
}

#[test]
fn read_json_text_converts() {
    let j = lauyer::json::read_json_text(r#"{"b": [1, 2.5, null, true], "a": "x"}"#).ok().unwrap();
    assert_eq!(j.get("a").unwrap().as_str(), Some("x"));
    match j.get("b").unwrap() {
        Json::Array(items) => {
            assert_eq!(items.len(), 4);
            assert!(matches!(&items[1], Json::Number(n) if n == "2.5"));
            assert!(matches!(&items[3], Json::Bool(true)));
        }
        _ => panic!("expected an array"),
    }
    assert!(lauyer::json::read_json_text("").is_err());
}
