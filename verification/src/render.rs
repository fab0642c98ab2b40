use vstd::prelude::*;

use vstd::string::StringSliceAdditionalSpecFns;
use vstd::utf8::{
    decode_utf8, decode_utf8_encode_utf8, decode_utf8_split, encode_utf8, encode_utf8_decode_utf8,
    encode_utf8_valid_utf8, is_ascii_chars_encode_utf8, is_char_boundary,
    is_char_boundary_start_end_of_seq, valid_utf8, valid_utf8_split,
};

use crate::date::{format_ymd, ymd_text, DrDate};
use crate::detail::DrDetailResult;
use crate::json::{lemma_entries_get_at, push_entry, str_value, Json, JsonView};

verus! {

/// The note that closes the Markdown text of an act.
pub const MARKDOWN_NOTE: &'static str = "\n> Note: This text was extracted automatically and may contain interpretation errors. Always verify against the official source above.\n";

/// The disclaimer of the JSON form of an act.
pub const JSON_DISCLAIMER: &'static str = "This text was extracted automatically and may contain interpretation errors. Always verify against the official DR source.";

/// The publication date as `"%Y-%m-%d"`, or `"s/d"` (no date).
pub open spec fn date_text(d: Option<DrDate>) -> Seq<char> {
    match d {
        Some(x) => ymd_text(x@),
        None => "s/d"@,
    }
}

/// `"{label}{value}\n"`, or nothing where `value` is empty.
pub open spec fn optional_line(label: Seq<char>, value: Seq<char>) -> Seq<char> {
    if value.len() == 0 {
        Seq::empty()
    } else {
        label + value + "\n"@
    }
}

/// The Markdown text of an act: a heading with its type, number and date, its issuer and
/// summary, a line for each of the PDF, ELI and DR addresses that it has, the note, and then
/// its text, where it has one, after a rule.
pub open spec fn markdown_spec(r: DrDetailResult) -> Seq<char> {
    "### "@ + r.tipo_diploma@ + " n.º "@ + r.numero@ + " ("@ + date_text(r.data_publicacao)
        + ")\n**Emissor:** "@ + r.emissor@ + "\n**Sumário:** "@ + r.sumario@ + "\n"@
        + optional_line("**PDF:** "@, r.url_pdf@) + optional_line("**ELI:** "@, r.eli@)
        + optional_line("**DR:** "@, r.dr_url@) + MARKDOWN_NOTE@ + (if r.texto@.len() == 0 {
        Seq::empty()
    } else {
        "\n---\n\n"@ + r.texto@
    })
}

/// The JSON value of the publication date: its `"%Y-%m-%d"` text, or `null`.
pub open spec fn date_json(d: Option<DrDate>) -> JsonView {
    match d {
        Some(x) => JsonView::Str(ymd_text(x@)),
        None => JsonView::Null,
    }
}

/// The JSON form of an act: each field under its own name, the date as text or `null`, and
/// the disclaimer.
pub open spec fn json_spec(r: DrDetailResult) -> JsonView {
    JsonView::Object(
        seq![
            ("id"@, JsonView::Str(r.id@)),
            ("titulo"@, JsonView::Str(r.titulo@)),
            ("numero"@, JsonView::Str(r.numero@)),
            ("publicacao"@, JsonView::Str(r.publicacao@)),
            ("sumario"@, JsonView::Str(r.sumario@)),
            ("texto"@, JsonView::Str(r.texto@)),
            ("data_publicacao"@, date_json(r.data_publicacao)),
            ("emissor"@, JsonView::Str(r.emissor@)),
            ("serie"@, JsonView::Str(r.serie@)),
            ("tipo_diploma"@, JsonView::Str(r.tipo_diploma@)),
            ("vigencia"@, JsonView::Str(r.vigencia@)),
            ("url_pdf"@, JsonView::Str(r.url_pdf@)),
            ("eli"@, JsonView::Str(r.eli@)),
            ("notas"@, JsonView::Str(r.notas@)),
            ("pagina"@, JsonView::Str(r.pagina@)),
            ("dr_url"@, JsonView::Str(r.dr_url@)),
            ("_disclaimer"@, JsonView::Str(JSON_DISCLAIMER@)),
        ],
    )
}

/// The largest character boundary of `bytes` at or below `end` (0 at worst).
pub open spec fn boundary_at_most(bytes: Seq<u8>, end: nat) -> nat
    decreases end,
{
    if end == 0 || is_char_boundary(bytes, end as int) {
        end
    } else {
        boundary_at_most(bytes, (end - 1) as nat)
    }
}

/// `text` where its UTF-8 form has at most `limit` bytes; else its longest prefix of at most
/// `keep` bytes, followed by `"..."`.
pub open spec fn ellipsized(text: Seq<char>, limit: nat, keep: nat) -> Seq<char> {
    let bytes = encode_utf8(text);
    if bytes.len() > limit {
        decode_utf8(bytes.subrange(0, boundary_at_most(bytes, keep) as int)) + "..."@
    } else {
        text
    }
}

/// `text`, cut at a character boundary to at most `keep` bytes and marked with `"..."` where
/// it is longer than `limit` bytes.
fn ellipsize(text: &str, limit: usize, keep: usize) -> (r: String)
    requires
        keep <= limit,
    ensures
        r@ == ellipsized(text@, limit as nat, keep as nat),
{
    proof {
        encode_utf8_valid_utf8(text@);
    }
    let ghost bytes = encode_utf8(text@);
    if text.as_bytes().len() > limit {
        let mut end = keep;
        while end > 0 && !text.is_char_boundary(end)
            invariant
                end <= keep,
                bytes == text.spec_bytes(),
                valid_utf8(bytes),
                boundary_at_most(bytes, end as nat) == boundary_at_most(bytes, keep as nat),
            decreases end,
        {
            end -= 1;
        }
        assert(end == boundary_at_most(bytes, keep as nat));
        assert(bytes.len() > limit);
        let (head, _) = text.split_at(end);
        proof {
            encode_utf8_decode_utf8(head@);
            assert(head.spec_bytes() == encode_utf8(head@));
            assert(head@ == decode_utf8(bytes.subrange(0, end as int)));
        }
        let mut s = head.to_owned();
        s.append("...");
        s
    } else {
        assert(bytes.len() <= limit);
        text.to_owned()
    }
}

impl DrDetailResult {
    /// The Markdown text of the act.
    pub fn to_markdown(&self) -> (r: String)
        ensures
            r@ == markdown_spec(*self),
    {
        let date_str = match &self.data_publicacao {
            Some(d) => format_ymd(d),
            None => String::from_str("s/d"),
        };
        let mut md = String::from_str("### ");
        md.append(self.tipo_diploma.as_str());
        md.append(" n.º ");
        md.append(self.numero.as_str());
        md.append(" (");
        md.append(date_str.as_str());
        md.append(")\n**Emissor:** ");
        md.append(self.emissor.as_str());
        md.append("\n**Sumário:** ");
        md.append(self.sumario.as_str());
        md.append("\n");
        let ghost head = md@;
        if !self.url_pdf.as_str().is_empty() {
            md.append("**PDF:** ");
            md.append(self.url_pdf.as_str());
            md.append("\n");
        }
        let ghost with_pdf = md@;
        if !self.eli.as_str().is_empty() {
            md.append("**ELI:** ");
            md.append(self.eli.as_str());
            md.append("\n");
        }
        let ghost with_eli = md@;
        if !self.dr_url.as_str().is_empty() {
            md.append("**DR:** ");
            md.append(self.dr_url.as_str());
            md.append("\n");
        }
        let ghost with_dr = md@;
        md.append(MARKDOWN_NOTE);
        let ghost with_note = md@;
        if !self.texto.as_str().is_empty() {
            md.append("\n---\n\n");
            md.append(self.texto.as_str());
        }
        proof {
            assert(with_pdf =~= head + optional_line("**PDF:** "@, self.url_pdf@));
            assert(with_eli =~= with_pdf + optional_line("**ELI:** "@, self.eli@));
            assert(with_dr =~= with_eli + optional_line("**DR:** "@, self.dr_url@));
            assert(md@ =~= markdown_spec(*self));
        }
        md
    }

    /// The JSON form of the act.
    pub fn to_json(&self) -> (r: Json)
        ensures
            r@ == json_spec(*self),
    {
        let date = match &self.data_publicacao {
            Some(d) => Json::Str(format_ymd(d)),
            None => Json::Null,
        };
        let mut m: Vec<(String, Json)> = Vec::new();
        push_entry(&mut m, "id", str_value(self.id.as_str()));
        push_entry(&mut m, "titulo", str_value(self.titulo.as_str()));
        push_entry(&mut m, "numero", str_value(self.numero.as_str()));
        push_entry(&mut m, "publicacao", str_value(self.publicacao.as_str()));
        push_entry(&mut m, "sumario", str_value(self.sumario.as_str()));
        push_entry(&mut m, "texto", str_value(self.texto.as_str()));
        push_entry(&mut m, "data_publicacao", date);
        push_entry(&mut m, "emissor", str_value(self.emissor.as_str()));
        push_entry(&mut m, "serie", str_value(self.serie.as_str()));
        push_entry(&mut m, "tipo_diploma", str_value(self.tipo_diploma.as_str()));
        push_entry(&mut m, "vigencia", str_value(self.vigencia.as_str()));
        push_entry(&mut m, "url_pdf", str_value(self.url_pdf.as_str()));
        push_entry(&mut m, "eli", str_value(self.eli.as_str()));
        push_entry(&mut m, "notas", str_value(self.notas.as_str()));
        push_entry(&mut m, "pagina", str_value(self.pagina.as_str()));
        push_entry(&mut m, "dr_url", str_value(self.dr_url.as_str()));
        push_entry(&mut m, "_disclaimer", str_value(JSON_DISCLAIMER));
        proof {
            let s = *self;
            assert(Json::view_entries(m@) =~= seq![
                ("id"@, JsonView::Str(s.id@)),
                ("titulo"@, JsonView::Str(s.titulo@)),
                ("numero"@, JsonView::Str(s.numero@)),
                ("publicacao"@, JsonView::Str(s.publicacao@)),
                ("sumario"@, JsonView::Str(s.sumario@)),
                ("texto"@, JsonView::Str(s.texto@)),
                ("data_publicacao"@, date_json(s.data_publicacao)),
                ("emissor"@, JsonView::Str(s.emissor@)),
                ("serie"@, JsonView::Str(s.serie@)),
                ("tipo_diploma"@, JsonView::Str(s.tipo_diploma@)),
                ("vigencia"@, JsonView::Str(s.vigencia@)),
                ("url_pdf"@, JsonView::Str(s.url_pdf@)),
                ("eli"@, JsonView::Str(s.eli@)),
                ("notas"@, JsonView::Str(s.notas@)),
                ("pagina"@, JsonView::Str(s.pagina@)),
                ("dr_url"@, JsonView::Str(s.dr_url@)),
                ("_disclaimer"@, JsonView::Str(JSON_DISCLAIMER@)),
            ]);
        }
        Json::Object(m)
    }

    /// The row of the act in a table of acts: its headers, and its date, type, number, issuer
    /// and text, the text cut to 77 bytes and marked with `"..."` where it is longer than 80.
    pub fn table_row(&self) -> (r: Option<(Vec<&'static str>, Vec<String>)>)
        ensures
            r matches Some((headers, row)) && headers@ == seq![
                "Date",
                "Tipo",
                "Número",
                "Emissor",
                "Texto",
            ] && row@.map_values(|s: String| s@) == seq![
                date_text(self.data_publicacao),
                self.tipo_diploma@,
                self.numero@,
                self.emissor@,
                ellipsized(self.texto@, 80, 77),
            ],
    {
        let date_str = match &self.data_publicacao {
            Some(d) => format_ymd(d),
            None => String::from_str("s/d"),
        };
        let truncated_texto = ellipsize(self.texto.as_str(), 80, 77);
        let headers = vec!["Date", "Tipo", "Número", "Emissor", "Texto"];
        let row = vec![
            date_str,
            self.tipo_diploma.clone(),
            self.numero.clone(),
            self.emissor.clone(),
            truncated_texto,
        ];
        proof {
            assert(row@.map_values(|s: String| s@) =~= seq![
                date_text(self.data_publicacao),
                self.tipo_diploma@,
                self.numero@,
                self.emissor@,
                ellipsized(self.texto@, 80, 77),
            ]);
        }
        Some((headers, row))
    }
}


/// The UTF-8 form of two texts one after the other is their forms one after the other.
pub proof fn lemma_encode_utf8_concat(a: Seq<char>, b: Seq<char>)
    ensures
        encode_utf8(a + b) == encode_utf8(a) + encode_utf8(b),
    decreases a.len(),
{
    if a.len() == 0 {
        assert(a + b =~= b);
        assert(encode_utf8(a) + encode_utf8(b) =~= encode_utf8(b));
    } else {
        assert((a + b).drop_first() =~= a.drop_first() + b);
        assert((a + b)[0] == a[0]);
        lemma_encode_utf8_concat(a.drop_first(), b);
        assert(encode_utf8(a + b) =~= encode_utf8(a) + encode_utf8(b));
    }
}

proof fn lemma_boundary_at_most(bytes: Seq<u8>, end: nat)
    requires
        valid_utf8(bytes),
    ensures
        boundary_at_most(bytes, end) <= end,
        is_char_boundary(bytes, boundary_at_most(bytes, end) as int),
    decreases end,
{
    is_char_boundary_start_end_of_seq(bytes);
    if end > 0 && !is_char_boundary(bytes, end as int) {
        lemma_boundary_at_most(bytes, (end - 1) as nat);
    }
}

/// A row's text fits its column: where at least three bytes lie between `keep` and `limit`,
/// the UTF-8 form of the ellipsized text has at most `limit` bytes. A text that fits is left
/// whole; a longer one becomes a prefix of itself followed by `"..."`.
pub proof fn law_ellipsized_fits(text: Seq<char>, limit: nat, keep: nat)
    requires
        keep + 3 <= limit,
    ensures
        encode_utf8(ellipsized(text, limit, keep)).len() <= limit,
        encode_utf8(text).len() <= limit ==> ellipsized(text, limit, keep) == text,
        encode_utf8(text).len() > limit ==> exists|k: int|
            0 <= k <= text.len() && ellipsized(text, limit, keep) == text.take(k) + "..."@,
{
    let bytes = encode_utf8(text);
    if bytes.len() > limit {
        encode_utf8_valid_utf8(text);
        let e = boundary_at_most(bytes, keep);
        lemma_boundary_at_most(bytes, keep);
        let prefix = bytes.subrange(0, e as int);
        valid_utf8_split(bytes, e as int);
        decode_utf8_encode_utf8(prefix);
        let kept = decode_utf8(prefix);
        lemma_encode_utf8_concat(kept, "..."@);
        reveal_strlit("...");
        is_ascii_chars_encode_utf8("..."@);
        assert(encode_utf8(ellipsized(text, limit, keep)).len() == e + 3);
        decode_utf8_split(bytes, e as int);
        encode_utf8_decode_utf8(text);
        assert(text =~= kept + decode_utf8(bytes.subrange(e as int, bytes.len() as int)));
        assert(kept =~= text.take(kept.len() as int));
    }
}

/// Every Markdown text of an act carries the note, after the heading lines and before the
/// act's text; where the act has no text, the note ends it.
pub proof fn law_markdown_carries_note(r: DrDetailResult)
    ensures
        exists|head: Seq<char>, tail: Seq<char>|
            markdown_spec(r) == head + MARKDOWN_NOTE@ + tail && (r.texto@.len() == 0 <==> tail.len() == 0),
{
    let tail = if r.texto@.len() == 0 {
        Seq::<char>::empty()
    } else {
        "\n---\n\n"@ + r.texto@
    };
    let head = markdown_spec(r).take(markdown_spec(r).len() - MARKDOWN_NOTE@.len() - tail.len());
    assert(markdown_spec(r) =~= head + MARKDOWN_NOTE@ + tail);
}


/// `t` stands in `s` from position `i` on.
pub open spec fn occurs_at(s: Seq<char>, t: Seq<char>, i: int) -> bool {
    0 <= i && i + t.len() <= s.len() && s.subrange(i, i + t.len()) == t
}

/// The Markdown text of an act opens with its heading (its type, its number and its
/// `"%Y-%m-%d"` date, or `s/d` where it has none), its issuer and its summary; it ends with the
/// note, followed by a rule and the act's text where it has one; and for each of its PDF, ELI
/// and DR addresses that is not empty it holds, before the note, the line `**PDF:** `,
/// `**ELI:** ` or `**DR:** ` with that address.
pub proof fn law_markdown_lines(r: DrDetailResult)
    ensures
        ({
            let md = markdown_spec(r);
            let opening = "### "@ + r.tipo_diploma@ + " n.º "@ + r.numero@ + " ("@ + (
            match r.data_publicacao {
                Some(d) => ymd_text(d@),
                None => "s/d"@,
            }) + ")\n**Emissor:** "@ + r.emissor@ + "\n**Sumário:** "@ + r.sumario@ + "\n"@;
            let closing = MARKDOWN_NOTE@ + (if r.texto@.len() == 0 {
                Seq::empty()
            } else {
                "\n---\n\n"@ + r.texto@
            });
            let before_note = md.len() - closing.len();
            &&& md.len() >= opening.len() + closing.len()
            &&& md.take(opening.len() as int) == opening
            &&& md.skip(before_note) == closing
            &&& r.url_pdf@.len() > 0 ==> exists|i: int|
                #[trigger] occurs_at(md, "**PDF:** "@ + r.url_pdf@ + "\n"@, i) && i
                    + r.url_pdf@.len() + 10 <= before_note
            &&& r.eli@.len() > 0 ==> exists|i: int|
                #[trigger] occurs_at(md, "**ELI:** "@ + r.eli@ + "\n"@, i) && i + r.eli@.len()
                    + 10 <= before_note
            &&& r.dr_url@.len() > 0 ==> exists|i: int|
                #[trigger] occurs_at(md, "**DR:** "@ + r.dr_url@ + "\n"@, i) && i
                    + r.dr_url@.len() + 9 <= before_note
        }),
{
    reveal_strlit("**PDF:** ");
    reveal_strlit("**ELI:** ");
    reveal_strlit("**DR:** ");
    reveal_strlit("\n");
    let md = markdown_spec(r);
    let h = "### "@ + r.tipo_diploma@ + " n.º "@ + r.numero@ + " ("@ + date_text(r.data_publicacao)
        + ")\n**Emissor:** "@ + r.emissor@ + "\n**Sumário:** "@ + r.sumario@ + "\n"@;
    let p = optional_line("**PDF:** "@, r.url_pdf@);
    let e = optional_line("**ELI:** "@, r.eli@);
    let d = optional_line("**DR:** "@, r.dr_url@);
    let closing = MARKDOWN_NOTE@ + (if r.texto@.len() == 0 {
        Seq::<char>::empty()
    } else {
        "\n---\n\n"@ + r.texto@
    });
    assert(md =~= h + p + e + d + closing);
    assert(md.take(h.len() as int) =~= h);
    assert(md.skip(md.len() - closing.len()) =~= closing);
    let hl: int = h.len() as int;
    let pl: int = p.len() as int;
    let el: int = e.len() as int;
    let dl: int = d.len() as int;
    if r.url_pdf@.len() > 0 {
        assert(occurs_at(md, p, hl)) by {
            assert(md.subrange(hl, hl + pl) =~= p);
        }
    }
    if r.eli@.len() > 0 {
        assert(occurs_at(md, e, hl + pl)) by {
            assert(md.subrange(hl + pl, hl + pl + el) =~= e);
        }
    }
    if r.dr_url@.len() > 0 {
        assert(occurs_at(md, d, hl + pl + el)) by {
            assert(md.subrange(hl + pl + el, hl + pl + el + dl) =~= d);
        }
    }
}

/// Each member of the JSON form of an act holds the act's field of the same name: its text
/// (`sumario` the summary, `titulo` the title, ...), the publication date as `"%Y-%m-%d"` text or
/// `null` where there is none, and `_disclaimer` the disclaimer.
pub proof fn law_json_members(r: DrDetailResult)
    ensures
        json_spec(r).get("id"@) == Some(JsonView::Str(r.id@)),
        json_spec(r).get("titulo"@) == Some(JsonView::Str(r.titulo@)),
        json_spec(r).get("numero"@) == Some(JsonView::Str(r.numero@)),
        json_spec(r).get("publicacao"@) == Some(JsonView::Str(r.publicacao@)),
        json_spec(r).get("sumario"@) == Some(JsonView::Str(r.sumario@)),
        json_spec(r).get("texto"@) == Some(JsonView::Str(r.texto@)),
        json_spec(r).get("data_publicacao"@) == Some(
            match r.data_publicacao {
                Some(d) => JsonView::Str(ymd_text(d@)),
                None => JsonView::Null,
            },
        ),
        json_spec(r).get("emissor"@) == Some(JsonView::Str(r.emissor@)),
        json_spec(r).get("serie"@) == Some(JsonView::Str(r.serie@)),
        json_spec(r).get("tipo_diploma"@) == Some(JsonView::Str(r.tipo_diploma@)),
        json_spec(r).get("vigencia"@) == Some(JsonView::Str(r.vigencia@)),
        json_spec(r).get("url_pdf"@) == Some(JsonView::Str(r.url_pdf@)),
        json_spec(r).get("eli"@) == Some(JsonView::Str(r.eli@)),
        json_spec(r).get("notas"@) == Some(JsonView::Str(r.notas@)),
        json_spec(r).get("pagina"@) == Some(JsonView::Str(r.pagina@)),
        json_spec(r).get("dr_url"@) == Some(JsonView::Str(r.dr_url@)),
        json_spec(r).get("_disclaimer"@) == Some(JsonView::Str(JSON_DISCLAIMER@)),
{
    reveal_strlit("_disclaimer");
    reveal_strlit("data_publicacao");
    reveal_strlit("dr_url");
    reveal_strlit("eli");
    reveal_strlit("emissor");
    reveal_strlit("id");
    reveal_strlit("notas");
    reveal_strlit("numero");
    reveal_strlit("pagina");
    reveal_strlit("publicacao");
    reveal_strlit("serie");
    reveal_strlit("sumario");
    reveal_strlit("texto");
    reveal_strlit("tipo_diploma");
    reveal_strlit("titulo");
    reveal_strlit("url_pdf");
    reveal_strlit("vigencia");
    if let JsonView::Object(e) = json_spec(r) {
        lemma_entries_get_at(e, "id"@, 0);
        assert(e[0].0.len() != "titulo"@.len());
        assert forall|j: int| 0 <= j < 1 implies #[trigger] e[j].0 != "titulo"@ by {
            assert(j == 0);
        }
        lemma_entries_get_at(e, "titulo"@, 1);
        assert(e[0].0.len() != "numero"@.len());
        assert(e[1].0[0] != "numero"@[0]);
        assert forall|j: int| 0 <= j < 2 implies #[trigger] e[j].0 != "numero"@ by {
            assert(j == 0 || j == 1);
        }
        lemma_entries_get_at(e, "numero"@, 2);
        assert(e[0].0.len() != "publicacao"@.len());
        assert(e[1].0.len() != "publicacao"@.len());
        assert(e[2].0.len() != "publicacao"@.len());
        assert forall|j: int| 0 <= j < 3 implies #[trigger] e[j].0 != "publicacao"@ by {
            assert(j == 0 || j == 1 || j == 2);
        }
        lemma_entries_get_at(e, "publicacao"@, 3);
        assert(e[0].0.len() != "sumario"@.len());
        assert(e[1].0.len() != "sumario"@.len());
        assert(e[2].0.len() != "sumario"@.len());
        assert(e[3].0.len() != "sumario"@.len());
        assert forall|j: int| 0 <= j < 4 implies #[trigger] e[j].0 != "sumario"@ by {
            assert(j == 0 || j == 1 || j == 2 || j == 3);
        }
        lemma_entries_get_at(e, "sumario"@, 4);
        assert(e[0].0.len() != "texto"@.len());
        assert(e[1].0.len() != "texto"@.len());
        assert(e[2].0.len() != "texto"@.len());
        assert(e[3].0.len() != "texto"@.len());
        assert(e[4].0.len() != "texto"@.len());
        assert forall|j: int| 0 <= j < 5 implies #[trigger] e[j].0 != "texto"@ by {
            assert(j == 0 || j == 1 || j == 2 || j == 3 || j == 4);
        }
        lemma_entries_get_at(e, "texto"@, 5);
        assert(e[0].0.len() != "data_publicacao"@.len());
        assert(e[1].0.len() != "data_publicacao"@.len());
        assert(e[2].0.len() != "data_publicacao"@.len());
        assert(e[3].0.len() != "data_publicacao"@.len());
        assert(e[4].0.len() != "data_publicacao"@.len());
        assert(e[5].0.len() != "data_publicacao"@.len());
        assert forall|j: int| 0 <= j < 6 implies #[trigger] e[j].0 != "data_publicacao"@ by {
            assert(j == 0 || j == 1 || j == 2 || j == 3 || j == 4 || j == 5);
        }
        lemma_entries_get_at(e, "data_publicacao"@, 6);
        assert(e[0].0.len() != "emissor"@.len());
        assert(e[1].0.len() != "emissor"@.len());
        assert(e[2].0.len() != "emissor"@.len());
        assert(e[3].0.len() != "emissor"@.len());
        assert(e[4].0[0] != "emissor"@[0]);
        assert(e[5].0.len() != "emissor"@.len());
        assert(e[6].0.len() != "emissor"@.len());
        assert forall|j: int| 0 <= j < 7 implies #[trigger] e[j].0 != "emissor"@ by {
            assert(j == 0 || j == 1 || j == 2 || j == 3 || j == 4 || j == 5 || j == 6);
        }
        lemma_entries_get_at(e, "emissor"@, 7);
        assert(e[0].0.len() != "serie"@.len());
        assert(e[1].0.len() != "serie"@.len());
        assert(e[2].0.len() != "serie"@.len());
        assert(e[3].0.len() != "serie"@.len());
        assert(e[4].0.len() != "serie"@.len());
        assert(e[5].0[0] != "serie"@[0]);
        assert(e[6].0.len() != "serie"@.len());
        assert(e[7].0.len() != "serie"@.len());
        assert forall|j: int| 0 <= j < 8 implies #[trigger] e[j].0 != "serie"@ by {
            assert(j == 0 || j == 1 || j == 2 || j == 3 || j == 4 || j == 5 || j == 6 || j == 7);
        }
        lemma_entries_get_at(e, "serie"@, 8);
        assert(e[0].0.len() != "tipo_diploma"@.len());
        assert(e[1].0.len() != "tipo_diploma"@.len());
        assert(e[2].0.len() != "tipo_diploma"@.len());
        assert(e[3].0.len() != "tipo_diploma"@.len());
        assert(e[4].0.len() != "tipo_diploma"@.len());
        assert(e[5].0.len() != "tipo_diploma"@.len());
        assert(e[6].0.len() != "tipo_diploma"@.len());
        assert(e[7].0.len() != "tipo_diploma"@.len());
        assert(e[8].0.len() != "tipo_diploma"@.len());
        assert forall|j: int| 0 <= j < 9 implies #[trigger] e[j].0 != "tipo_diploma"@ by {
            assert(j == 0 || j == 1 || j == 2 || j == 3 || j == 4 || j == 5 || j == 6 || j == 7 || j == 8);
        }
        lemma_entries_get_at(e, "tipo_diploma"@, 9);
        assert(e[0].0.len() != "vigencia"@.len());
        assert(e[1].0.len() != "vigencia"@.len());
        assert(e[2].0.len() != "vigencia"@.len());
        assert(e[3].0.len() != "vigencia"@.len());
        assert(e[4].0.len() != "vigencia"@.len());
        assert(e[5].0.len() != "vigencia"@.len());
        assert(e[6].0.len() != "vigencia"@.len());
        assert(e[7].0.len() != "vigencia"@.len());
        assert(e[8].0.len() != "vigencia"@.len());
        assert(e[9].0.len() != "vigencia"@.len());
        assert forall|j: int| 0 <= j < 10 implies #[trigger] e[j].0 != "vigencia"@ by {
            assert(j == 0 || j == 1 || j == 2 || j == 3 || j == 4 || j == 5 || j == 6 || j == 7 || j == 8 || j == 9);
        }
        lemma_entries_get_at(e, "vigencia"@, 10);
        assert(e[0].0.len() != "url_pdf"@.len());
        assert(e[1].0.len() != "url_pdf"@.len());
        assert(e[2].0.len() != "url_pdf"@.len());
        assert(e[3].0.len() != "url_pdf"@.len());
        assert(e[4].0[0] != "url_pdf"@[0]);
        assert(e[5].0.len() != "url_pdf"@.len());
        assert(e[6].0.len() != "url_pdf"@.len());
        assert(e[7].0[0] != "url_pdf"@[0]);
        assert(e[8].0.len() != "url_pdf"@.len());
        assert(e[9].0.len() != "url_pdf"@.len());
        assert(e[10].0.len() != "url_pdf"@.len());
        assert forall|j: int| 0 <= j < 11 implies #[trigger] e[j].0 != "url_pdf"@ by {
            assert(j == 0 || j == 1 || j == 2 || j == 3 || j == 4 || j == 5 || j == 6 || j == 7 || j == 8 || j == 9 || j == 10);
        }
        lemma_entries_get_at(e, "url_pdf"@, 11);
        assert(e[0].0.len() != "eli"@.len());
        assert(e[1].0.len() != "eli"@.len());
        assert(e[2].0.len() != "eli"@.len());
        assert(e[3].0.len() != "eli"@.len());
        assert(e[4].0.len() != "eli"@.len());
        assert(e[5].0.len() != "eli"@.len());
        assert(e[6].0.len() != "eli"@.len());
        assert(e[7].0.len() != "eli"@.len());
        assert(e[8].0.len() != "eli"@.len());
        assert(e[9].0.len() != "eli"@.len());
        assert(e[10].0.len() != "eli"@.len());
        assert(e[11].0.len() != "eli"@.len());
        assert forall|j: int| 0 <= j < 12 implies #[trigger] e[j].0 != "eli"@ by {
            assert(j == 0 || j == 1 || j == 2 || j == 3 || j == 4 || j == 5 || j == 6 || j == 7 || j == 8 || j == 9 || j == 10 || j == 11);
        }
        lemma_entries_get_at(e, "eli"@, 12);
        assert(e[0].0.len() != "notas"@.len());
        assert(e[1].0.len() != "notas"@.len());
        assert(e[2].0.len() != "notas"@.len());
        assert(e[3].0.len() != "notas"@.len());
        assert(e[4].0.len() != "notas"@.len());
        assert(e[5].0[0] != "notas"@[0]);
        assert(e[6].0.len() != "notas"@.len());
        assert(e[7].0.len() != "notas"@.len());
        assert(e[8].0[0] != "notas"@[0]);
        assert(e[9].0.len() != "notas"@.len());
        assert(e[10].0.len() != "notas"@.len());
        assert(e[11].0.len() != "notas"@.len());
        assert(e[12].0.len() != "notas"@.len());
        assert forall|j: int| 0 <= j < 13 implies #[trigger] e[j].0 != "notas"@ by {
            assert(j == 0 || j == 1 || j == 2 || j == 3 || j == 4 || j == 5 || j == 6 || j == 7 || j == 8 || j == 9 || j == 10 || j == 11 || j == 12);
        }
        lemma_entries_get_at(e, "notas"@, 13);
        assert(e[0].0.len() != "pagina"@.len());
        assert(e[1].0[0] != "pagina"@[0]);
        assert(e[2].0[0] != "pagina"@[0]);
        assert(e[3].0.len() != "pagina"@.len());
        assert(e[4].0.len() != "pagina"@.len());
        assert(e[5].0.len() != "pagina"@.len());
        assert(e[6].0.len() != "pagina"@.len());
        assert(e[7].0.len() != "pagina"@.len());
        assert(e[8].0.len() != "pagina"@.len());
        assert(e[9].0.len() != "pagina"@.len());
        assert(e[10].0.len() != "pagina"@.len());
        assert(e[11].0.len() != "pagina"@.len());
        assert(e[12].0.len() != "pagina"@.len());
        assert(e[13].0.len() != "pagina"@.len());
        assert forall|j: int| 0 <= j < 14 implies #[trigger] e[j].0 != "pagina"@ by {
            assert(j == 0 || j == 1 || j == 2 || j == 3 || j == 4 || j == 5 || j == 6 || j == 7 || j == 8 || j == 9 || j == 10 || j == 11 || j == 12 || j == 13);
        }
        lemma_entries_get_at(e, "pagina"@, 14);
        assert(e[0].0.len() != "dr_url"@.len());
        assert(e[1].0[0] != "dr_url"@[0]);
        assert(e[2].0[0] != "dr_url"@[0]);
        assert(e[3].0.len() != "dr_url"@.len());
        assert(e[4].0.len() != "dr_url"@.len());
        assert(e[5].0.len() != "dr_url"@.len());
        assert(e[6].0.len() != "dr_url"@.len());
        assert(e[7].0.len() != "dr_url"@.len());
        assert(e[8].0.len() != "dr_url"@.len());
        assert(e[9].0.len() != "dr_url"@.len());
        assert(e[10].0.len() != "dr_url"@.len());
        assert(e[11].0.len() != "dr_url"@.len());
        assert(e[12].0.len() != "dr_url"@.len());
        assert(e[13].0.len() != "dr_url"@.len());
        assert(e[14].0[0] != "dr_url"@[0]);
        assert forall|j: int| 0 <= j < 15 implies #[trigger] e[j].0 != "dr_url"@ by {
            assert(j == 0 || j == 1 || j == 2 || j == 3 || j == 4 || j == 5 || j == 6 || j == 7 || j == 8 || j == 9 || j == 10 || j == 11 || j == 12 || j == 13 || j == 14);
        }
        lemma_entries_get_at(e, "dr_url"@, 15);
        assert(e[0].0.len() != "_disclaimer"@.len());
        assert(e[1].0.len() != "_disclaimer"@.len());
        assert(e[2].0.len() != "_disclaimer"@.len());
        assert(e[3].0.len() != "_disclaimer"@.len());
        assert(e[4].0.len() != "_disclaimer"@.len());
        assert(e[5].0.len() != "_disclaimer"@.len());
        assert(e[6].0.len() != "_disclaimer"@.len());
        assert(e[7].0.len() != "_disclaimer"@.len());
        assert(e[8].0.len() != "_disclaimer"@.len());
        assert(e[9].0.len() != "_disclaimer"@.len());
        assert(e[10].0.len() != "_disclaimer"@.len());
        assert(e[11].0.len() != "_disclaimer"@.len());
        assert(e[12].0.len() != "_disclaimer"@.len());
        assert(e[13].0.len() != "_disclaimer"@.len());
        assert(e[14].0.len() != "_disclaimer"@.len());
        assert(e[15].0.len() != "_disclaimer"@.len());
        assert forall|j: int| 0 <= j < 16 implies #[trigger] e[j].0 != "_disclaimer"@ by {
            assert(j == 0 || j == 1 || j == 2 || j == 3 || j == 4 || j == 5 || j == 6 || j == 7 || j == 8 || j == 9 || j == 10 || j == 11 || j == 12 || j == 13 || j == 14 || j == 15);
        }
        lemma_entries_get_at(e, "_disclaimer"@, 16);
    }
}

} // verus!
