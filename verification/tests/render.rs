use lauyer::date::{format_ymd, DrDate};
use lauyer::detail::DrDetailResult;
use lauyer::json::Json;

fn act(texto: &str, date: Option<DrDate>) -> DrDetailResult {
    DrDetailResult {
        id: "1".to_string(),
        titulo: "Título".to_string(),
        numero: "12/2026".to_string(),
        publicacao: "P".to_string(),
        sumario: "Resumo".to_string(),
        texto: texto.to_string(),
        data_publicacao: date,
        emissor: "Assembleia".to_string(),
        serie: "I".to_string(),
        tipo_diploma: "Lei".to_string(),
        vigencia: "".to_string(),
        url_pdf: "https://x/p.pdf".to_string(),
        eli: "".to_string(),
        notas: "".to_string(),
        pagina: "".to_string(),
        dr_url: "https://diariodarepublica.pt/dr/detalhe/lei/12-2026-1".to_string(),
    }
}

const NOTE: &str = "\n> Note: This text was extracted automatically and may contain interpretation errors. Always verify against the official source above.\n";

#[test]
fn markdown_with_text() {
    let md = act("Artigo 1.º", DrDate::from_ymd_opt(2026, 1, 5)).to_markdown();
    let expected = format!(
        "### Lei n.º 12/2026 (2026-01-05)\n**Emissor:** Assembleia\n**Sumário:** Resumo\n**PDF:** https://x/p.pdf\n**DR:** https://diariodarepublica.pt/dr/detalhe/lei/12-2026-1\n{}\n---\n\nArtigo 1.º",
        NOTE
    );
    assert_eq!(md, expected);
}

#[test]
fn markdown_without_text_or_date() {
    let md = act("", None).to_markdown();
    assert!(md.starts_with("### Lei n.º 12/2026 (s/d)\n"));
    assert!(md.ends_with(NOTE));
    assert!(!md.contains("**ELI:**"));
}

#[test]
fn json_form() {
    let j = act("T", DrDate::from_ymd_opt(999, 12, 31)).to_json();
    assert_eq!(j.get("data_publicacao").unwrap().as_str(), Some("0999-12-31"));
    assert_eq!(j.get("titulo").unwrap().as_str(), Some("Título"));
    assert_eq!(j.get("dr_url").unwrap().as_str(), Some("https://diariodarepublica.pt/dr/detalhe/lei/12-2026-1"));
    assert_eq!(
        j.get("_disclaimer").unwrap().as_str(),
        Some("This text was extracted automatically and may contain interpretation errors. Always verify against the official DR source.")
    );
    match j {
        Json::Object(e) => assert_eq!(e.len(), 17),
        _ => panic!("expected an object"),
    }
    let j = act("T", None).to_json();
    assert!(matches!(j.get("data_publicacao"), Some(Json::Null)));
}

#[test]
fn table_row_short_text() {
    let (headers, row) = act("Curto", None).table_row().unwrap();
    assert_eq!(headers, vec!["Date", "Tipo", "Número", "Emissor", "Texto"]);
    assert_eq!(row, vec!["s/d", "Lei", "12/2026", "Assembleia", "Curto"]);
}

#[test]
fn table_row_cuts_long_text() {
    let long = "a".repeat(100);
    let (_, row) = act(&long, None).table_row().unwrap();
    assert_eq!(row[4], format!("{}...", "a".repeat(77)));
    // exactly 80 bytes is kept whole
    let exact = "b".repeat(80);
    let (_, row) = act(&exact, None).table_row().unwrap();
    assert_eq!(row[4], exact);
}

#[test]
fn table_row_cuts_at_char_boundary() {
    // 76 ASCII bytes, then a two-byte character across byte 77, then more text
    let text = format!("{}é{}", "c".repeat(76), "d".repeat(10));
    let (_, row) = act(&text, None).table_row().unwrap();
    assert_eq!(row[4], format!("{}...", "c".repeat(76)));
    assert!(row[4].len() <= 80);
}

#[test]
fn law_ellipsized_fits_example() {
    let text = "ção".repeat(40);
    let (_, row) = act(&text, None).table_row().unwrap();
    assert!(row[4].len() <= 80);
    assert!(row[4].ends_with("..."));
    assert!(text.starts_with(&row[4][..row[4].len() - 3]));
}

#[test]
fn law_markdown_carries_note_example() {
    for t in ["", "x"] {
        let md = act(t, None).to_markdown();
        assert!(md.contains(NOTE));
        assert_eq!(md.ends_with(NOTE), t.is_empty());
    }
}

#[test]
fn dates() {
    assert!(DrDate::from_ymd_opt(2023, 2, 29).is_none());
    assert!(DrDate::from_ymd_opt(2024, 2, 29).is_some());
    assert!(DrDate::from_ymd_opt(1900, 2, 29).is_none());
    assert!(DrDate::from_ymd_opt(2000, 2, 29).is_some());
    assert!(DrDate::from_ymd_opt(2024, 4, 31).is_none());
    assert!(DrDate::from_ymd_opt(2024, 13, 1).is_none());
    assert!(DrDate::from_ymd_opt(2024, 1, 0).is_none());
    assert!(DrDate::from_ymd_opt(262143, 1, 1).is_none());
    assert!(DrDate::from_ymd_opt(-262143, 1, 1).is_some());
}

#[test]
fn date_formats_like_chrono() {
    assert_eq!(format_ymd(&DrDate::from_ymd_opt(2026, 1, 5).unwrap()), "2026-01-05");
    assert_eq!(format_ymd(&DrDate::from_ymd_opt(7, 10, 1).unwrap()), "0007-10-01");
    assert_eq!(format_ymd(&DrDate::from_ymd_opt(-5, 3, 9).unwrap()), "-0005-03-09");
    assert_eq!(format_ymd(&DrDate::from_ymd_opt(12345, 6, 7).unwrap()), "+12345-06-07");
    assert_eq!(format_ymd(&DrDate::from_ymd_opt(-12345, 6, 7).unwrap()), "-12345-06-07");
    assert_eq!(format_ymd(&DrDate::from_ymd_opt(10000, 1, 1).unwrap()), "+10000-01-01");
}

#[test]
fn law_iso_date_text_example() {
    let t = format_ymd(&DrDate::from_ymd_opt(1984, 11, 30).unwrap());
    assert_eq!(t.len(), 10);
    assert_eq!(t[0..4].parse::<i32>().unwrap(), 1984);
    assert_eq!(t[5..7].parse::<u32>().unwrap(), 11);
    assert_eq!(t[8..10].parse::<u32>().unwrap(), 30);
}
