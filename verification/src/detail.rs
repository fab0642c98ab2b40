use vstd::prelude::*;

use crate::date::{chrono_parse_ymd, parse_ymd, valid_ymd, ymd_text, DrDate};
use crate::json::{json_text_reading, opt_as_str, opt_get, read_json_text, Json, JsonView};
use crate::text::{
    decimal, find_slash, first_segment, is_digit, lemma_decimal_digits, lemma_parse_decimal,
    lemma_segments_ignore_tail, lemma_slash_index_after, lemma_slash_index_none, lowercase, parse_u32_range, parse_u32_spec,
    push_decimal, second_segment, slash_index, str_chars, to_lowercase,
};

verus! {

/// The endpoint of the detail API.
pub const DETAIL_URL: &'static str = "https://diariodarepublica.pt/dr/screenservices/dr/Legislacao_Conteudos/Conteudo_Detalhe/DataActionGetConteudoDataAndApplicationSettings";

/// API version hash for the detail endpoint (different from search).
pub const DETAIL_API_VERSION: &'static str = "xbG2d6DNViOgTiMUtZPtGw";

/// The slug and year that `derive_slug_and_year` gives: the first `/`-separated piece of
/// `numero`, lowercased, and the second piece read as a `u32`, or `fallback_year` where there
/// is no second piece or it is no `u32`.
pub open spec fn slug_and_year(numero: Seq<char>, fallback_year: u32) -> (Seq<char>, u32) {
    let year = match second_segment(numero) {
        Some(p) => match parse_u32_spec(p) {
            Some(y) => y,
            None => fallback_year,
        },
        None => fallback_year,
    };
    (lowercase(first_segment(numero)), year)
}

/// Derive the slug used in the detail API `Key` and `Numero` fields.
///
/// Input: "123-A/2026/1" → ("123-a", 2026)
/// Input: "79-A/2026" → ("79-a", 2026)
pub fn derive_slug_and_year(numero: &str, fallback_year: u32) -> (r: (String, u32))
    ensures
        (r.0@, r.1) == slug_and_year(numero@, fallback_year),
{
    let v = str_chars(numero);
    let n = v.len();
    let i = find_slash(&v, 0);
    assert(v@.subrange(0, n as int) =~= numero@);
    let slug = to_lowercase(numero.substring_char(0, i));
    let year = if i < n {
        let j = find_slash(&v, i + 1);
        proof {
            let rest = numero@.skip(slash_index(numero@) + 1int);
            assert(v@.subrange(i + 1, n as int) =~= rest);
            assert(v@.subrange(i + 1, j as int) =~= rest.take(slash_index(rest) as int));
        }
        match parse_u32_range(&v, i + 1, j) {
            Some(y) => y,
            None => fallback_year,
        }
    } else {
        fallback_year
    };
    (slug, year)
}

/// The tipo slug for the detail API URL: `tipo` lowercased.
pub open spec fn tipo_slug_spec(tipo: Seq<char>) -> Seq<char> {
    lowercase(tipo)
}

/// Derive the tipo slug for the detail API URL.
///
/// "Portaria" → "portaria", "Decreto-Lei" → "decreto-lei"
pub fn tipo_slug(tipo: &str) -> (r: String)
    ensures
        r@ == tipo_slug_spec(tipo@),
        r@ == lowercase(tipo@),
{
    to_lowercase(tipo)
}

/// `"{numero_slug}-{year}-{conteudo_id}"`: the key of an act in the detail API, which its
/// page address ends with too.
pub open spec fn detail_key(numero_slug: Seq<char>, year: u32, conteudo_id: Seq<char>) -> Seq<char> {
    numero_slug + "-"@ + decimal(year as nat) + "-"@ + conteudo_id
}

/// The key that the detail request sends for the act `conteudo_id` numbered `numero`, with
/// `year` where `numero` gives no year.
pub open spec fn request_key(numero: Seq<char>, year: u32, conteudo_id: Seq<char>) -> Seq<char> {
    detail_key(slug_and_year(numero, year).0, slug_and_year(numero, year).1, conteudo_id)
}

pub(crate) fn push_detail_key(out: &mut String, numero_slug: &str, year: u32, conteudo_id: &str)
    ensures
        final(out)@ == old(out)@ + detail_key(numero_slug@, year, conteudo_id@),
{
    let ghost start = out@;
    out.append(numero_slug);
    out.append("-");
    push_decimal(out, year);
    out.append("-");
    out.append(conteudo_id);
    assert(out@ =~= start + detail_key(numero_slug@, year, conteudo_id@));
}

/// Full detail of a DR legislation act.
#[derive(Debug, Clone)]
pub struct DrDetailResult {
    pub id: String,
    pub titulo: String,
    pub numero: String,
    pub publicacao: String,
    pub sumario: String,
    pub texto: String,
    pub data_publicacao: Option<DrDate>,
    pub emissor: String,
    pub serie: String,
    pub tipo_diploma: String,
    pub vigencia: String,
    pub url_pdf: String,
    pub eli: String,
    pub notas: String,
    pub pagina: String,
    pub dr_url: String,
}

/// Why a detail response was refused.
#[derive(Debug)]
pub enum DrError {
    /// The response could not be read.
    Parse { message: String, source_url: String },
    /// The API answered with an error.
    Session { message: String },
}

/// The text of the member `key` of `detail`, or the empty text where it is missing or is no
/// string.
pub open spec fn field_text(detail: JsonView, key: Seq<char>) -> Seq<char> {
    match opt_as_str(detail.get(key)) {
        Some(s) => s,
        None => Seq::empty(),
    }
}

/// The publication date that `detail` gives: its `DataPublicacao` text read by chrono as
/// `"%Y-%m-%d"`, where that text is there.
pub open spec fn publication_date(detail: JsonView) -> Option<(int, int, int)> {
    match opt_as_str(detail.get("DataPublicacao"@)) {
        Some(s) => chrono_parse_ymd(s),
        None => None,
    }
}

/// The page address of an act on the DR site:
/// `https://diariodarepublica.pt/dr/detalhe/{tipo slug}/{numero slug}-{year}-{conteudo_id}`,
/// where the tipo is `tipo_diploma`, or `tipo` where `tipo_diploma` is empty, and the slug and
/// year come from `numero` (year 0 where it gives none).
pub open spec fn dr_url_spec(
    numero: Seq<char>,
    tipo_diploma: Seq<char>,
    tipo: Seq<char>,
    conteudo_id: Seq<char>,
) -> Seq<char> {
    let t = tipo_slug_spec(if tipo_diploma.len() == 0 { tipo } else { tipo_diploma });
    "https://diariodarepublica.pt/dr/detalhe/"@ + t + "/"@ + request_key(numero, 0, conteudo_id)
}

/// `r` is the act that the object `detail` describes: each text field is the member of the
/// same meaning (empty where missing), and `dr_url` is the act's page address.
pub open spec fn describes(
    r: DrDetailResult,
    detail: JsonView,
    conteudo_id: Seq<char>,
    tipo: Seq<char>,
) -> bool {
    &&& r.id@ == field_text(detail, "Id"@)
    &&& r.titulo@ == field_text(detail, "Titulo"@)
    &&& r.numero@ == field_text(detail, "Numero"@)
    &&& r.publicacao@ == field_text(detail, "Publicacao"@)
    &&& r.sumario@ == field_text(detail, "Sumario"@)
    &&& r.texto@ == field_text(detail, "Texto"@)
    &&& r.emissor@ == field_text(detail, "Emissor"@)
    &&& r.serie@ == field_text(detail, "Serie"@)
    &&& r.tipo_diploma@ == field_text(detail, "TipoDiploma"@)
    &&& r.vigencia@ == field_text(detail, "Vigencia"@)
    &&& r.url_pdf@ == field_text(detail, "URL_PDF"@)
    &&& r.eli@ == field_text(detail, "ELI"@)
    &&& r.notas@ == field_text(detail, "Notas"@)
    &&& r.pagina@ == field_text(detail, "Pagina"@)
    &&& r.dr_url@ == dr_url_spec(
        field_text(detail, "Numero"@),
        field_text(detail, "TipoDiploma"@),
        tipo,
        conteudo_id,
    )
}

/// The date of `d`, where there is one.
pub open spec fn date_view(d: Option<DrDate>) -> Option<(int, int, int)> {
    match d {
        Some(x) => Some(x@),
        None => None,
    }
}

/// The text of the member `key` of `detail`, or `""`.
fn text_field(detail: &Json, key: &str) -> (r: String)
    ensures
        r@ == field_text(detail@, key@),
{
    match detail.get(key) {
        Some(v) => match v.as_str() {
            Some(s) => String::from_str(s),
            None => String::new(),
        },
        None => String::new(),
    }
}

/// The act that the object `detail` describes, with the publication date given.
pub fn detail_from_fields(
    detail: &Json,
    conteudo_id: &str,
    tipo: &str,
    data_publicacao: Option<DrDate>,
) -> (r: DrDetailResult)
    ensures
        describes(r, detail@, conteudo_id@, tipo@),
        r.data_publicacao == data_publicacao,
{
    let numero = text_field(detail, "Numero");
    let tipo_diploma = text_field(detail, "TipoDiploma");
    let tipo_slug_str = if tipo_diploma.as_str().is_empty() {
        tipo_slug(tipo)
    } else {
        tipo_slug(tipo_diploma.as_str())
    };
    let (numero_slug, year) = derive_slug_and_year(numero.as_str(), 0);
    let mut dr_url = String::from_str("https://diariodarepublica.pt/dr/detalhe/");
    dr_url.append(tipo_slug_str.as_str());
    dr_url.append("/");
    push_detail_key(&mut dr_url, numero_slug.as_str(), year, conteudo_id);
    assert(dr_url@ =~= dr_url_spec(numero@, tipo_diploma@, tipo@, conteudo_id@));
    DrDetailResult {
        id: text_field(detail, "Id"),
        titulo: text_field(detail, "Titulo"),
        numero,
        publicacao: text_field(detail, "Publicacao"),
        sumario: text_field(detail, "Sumario"),
        texto: text_field(detail, "Texto"),
        data_publicacao,
        emissor: text_field(detail, "Emissor"),
        serie: text_field(detail, "Serie"),
        tipo_diploma,
        vigencia: text_field(detail, "Vigencia"),
        url_pdf: text_field(detail, "URL_PDF"),
        eli: text_field(detail, "ELI"),
        notas: text_field(detail, "Notas"),
        pagina: text_field(detail, "Pagina"),
        dr_url,
    }
}

/// The message of the API exception that `outer` reports, where it reports one: the text of
/// its `message`, or `"Unknown exception"`.
pub open spec fn exception_message(outer: JsonView) -> Option<Seq<char>> {
    match outer.get("exception"@) {
        Some(e) => Some(
            match opt_as_str(e.get("message"@)) {
                Some(m) => m,
                None => "Unknown exception"@,
            },
        ),
        None => None,
    }
}

/// The object `data.DetalheConteudo` of a detail response.
pub open spec fn detail_object(outer: JsonView) -> Option<JsonView> {
    opt_get(outer.get("data"@), "DetalheConteudo"@)
}

/// What reading the detail response `outer` gives: an `exception` member is an error of the
/// API, naming its message; a response without `data.DetalheConteudo` cannot be read; else the
/// act that that object describes, with its publication date. A `DataPublicacao` that is the
/// `%Y-%m-%d` text of a date (as the JSON form of an act writes it) reads back as that date.
pub open spec fn reads_response(
    r: Result<DrDetailResult, DrError>,
    outer: JsonView,
    conteudo_id: Seq<char>,
    tipo: Seq<char>,
) -> bool {
    &&& match exception_message(outer) {
        Some(m) => (r matches Err(DrError::Session { message }) && message@
            == "DR detail API exception: "@ + m),
        None => match detail_object(outer) {
            None => (r matches Err(DrError::Parse { message, source_url }) && message@
                == "Missing 'data.DetalheConteudo' in DR detail response"@ && source_url@
                == DETAIL_URL@),
            Some(d) => (r matches Ok(res) && describes(res, d, conteudo_id, tipo) && date_view(
                res.data_publicacao,
            ) == publication_date(d)),
        },
    }
    &&& forall|x: (int, int, int)|
        exception_message(outer) is None && detail_object(outer) is Some && valid_ymd(
            x.0,
            x.1,
            x.2,
        ) && opt_as_str(detail_object(outer).unwrap().get("DataPublicacao"@)) == Some(
            #[trigger] ymd_text(x),
        ) ==> (r matches Ok(res) && date_view(res.data_publicacao) == Some(x))
}

/// Read the act out of a detail response `outer` (the JSON document that the API answered).
pub fn detail_from_response(outer: &Json, conteudo_id: &str, tipo: &str) -> (r: Result<
    DrDetailResult,
    DrError,
>)
    ensures
        reads_response(r, outer@, conteudo_id@, tipo@),
{
    if let Some(exception) = outer.get("exception") {
        let mut message = String::from_str("DR detail API exception: ");
        match exception.get("message") {
            Some(m) => match m.as_str() {
                Some(text) => message.append(text),
                None => message.append("Unknown exception"),
            },
            None => message.append("Unknown exception"),
        }
        return Err(DrError::Session { message });
    }
    let detail = match outer.get("data") {
        Some(data) => data.get("DetalheConteudo"),
        None => None,
    };
    match detail {
        None => Err(
            DrError::Parse {
                message: String::from_str("Missing 'data.DetalheConteudo' in DR detail response"),
                source_url: String::from_str(DETAIL_URL),
            },
        ),
        Some(detail) => {
            let data_publicacao = match detail.get("DataPublicacao") {
                Some(v) => match v.as_str() {
                    Some(s) => parse_ymd(s),
                    None => None,
                },
                None => None,
            };
            proof {
                assert forall|x: (int, int, int)|
                    valid_ymd(x.0, x.1, x.2) && opt_as_str(detail@.get("DataPublicacao"@)) == Some(
                        #[trigger] ymd_text(x),
                    ) implies date_view(data_publicacao) == Some(x) by {
                    DrDate::lemma_from_view(x);
                }
            }
            Ok(detail_from_fields(detail, conteudo_id, tipo, data_publicacao))
        },
    }
}


/// `derive_slug_and_year` reads back a number written as `"{slug}/{year}"`, whatever follows it
/// after another `/`: the slug lowercased and the year, never the fallback.
pub proof fn law_slug_and_year_read_back(slug: Seq<char>, year: u32, rest: Seq<char>, fallback_year: u32)
    requires
        forall|i: int| 0 <= i < slug.len() ==> slug[i] != '/',
        rest.len() == 0 || rest[0] == '/',
    ensures
        slug_and_year(slug + seq!['/'] + decimal(year as nat) + rest, fallback_year) == (
            lowercase(slug),
            year,
        ),
{
    let d = decimal(year as nat);
    let numero = slug + seq!['/'] + d + rest;
    lemma_decimal_digits(year as nat);
    lemma_slash_index_after(slug, d + rest);
    assert(numero =~= slug + seq!['/'] + (d + rest));
    assert(first_segment(numero) =~= slug);
    let tail = numero.skip(slug.len() + 1int);
    assert(tail =~= d + rest);
    assert forall|i: int| 0 <= i < d.len() implies d[i] != '/' by {
        assert(is_digit(d[i]));
    }
    if rest.len() == 0 {
        lemma_slash_index_none(d);
        assert(tail =~= d);
    } else {
        lemma_slash_index_after(d, rest.drop_first());
        assert(tail =~= d + seq!['/'] + rest.drop_first());
    }
    assert(tail.take(slash_index(tail) as int) =~= d);
    lemma_parse_decimal(year);
}

/// A number without `/` gives no year: `derive_slug_and_year` falls back to the year given,
/// and the slug is the whole number lowercased.
pub proof fn law_no_year_falls_back(numero: Seq<char>, fallback_year: u32)
    requires
        forall|i: int| 0 <= i < numero.len() ==> numero[i] != '/',
    ensures
        slug_and_year(numero, fallback_year) == (lowercase(numero), fallback_year),
{
    lemma_slash_index_none(numero);
    assert(first_segment(numero) =~= numero);
}


/// The page address of an act read from a detail response ends with the key that the detail
/// request sent for it, when the act's number gives its year (the year that the request fell
/// back on does not matter then); its tipo is the one that the request was made with when the
/// response gives none.
pub proof fn law_page_address_ends_with_request_key(
    numero: Seq<char>,
    tipo: Seq<char>,
    conteudo_id: Seq<char>,
    year: u32,
)
    requires
        second_segment(numero) matches Some(p) && parse_u32_spec(p) is Some,
    ensures
        dr_url_spec(numero, Seq::empty(), tipo, conteudo_id)
            == "https://diariodarepublica.pt/dr/detalhe/"@ + tipo_slug_spec(tipo) + "/"@
            + request_key(numero, year, conteudo_id),
{
}

/// Whether an HTTP status is a success (200 to 299), as the detail fetch requires.
pub open spec fn is_success_status(status: u16) -> bool {
    200 <= status <= 299
}

/// The verdict on the HTTP status of a detail response: a success goes on to reading the body;
/// any other status is a session error that names it (`status_text` is the status as the HTTP
/// client writes it, such as `"404 Not Found"`).
pub fn check_detail_status(status: u16, status_text: &str) -> (r: Result<(), DrError>)
    ensures
        is_success_status(status) ==> r is Ok,
        !is_success_status(status) ==> (r matches Err(DrError::Session { message }) && message@
            == "DR detail fetch returned HTTP "@ + status_text@),
        r is Ok <==> 200 <= status && status <= 299,
{
    if 200 <= status && status <= 299 {
        Ok(())
    } else {
        let mut message = String::from_str("DR detail fetch returned HTTP ");
        message.append(status_text);
        Err(DrError::Session { message })
    }
}


/// Text after a second `/` never changes `derive_slug_and_year`: where `numero` holds a `/`,
/// `numero` followed by `/` and anything gives the same slug and year as `numero` (the year is
/// the second piece, not the last).
pub proof fn law_text_after_second_slash_is_ignored(
    numero: Seq<char>,
    extra: Seq<char>,
    fallback_year: u32,
)
    requires
        exists|i: int| 0 <= i < numero.len() && numero[i] == '/',
    ensures
        slug_and_year(numero + seq!['/'] + extra, fallback_year) == slug_and_year(
            numero,
            fallback_year,
        ),
{
    let i = choose|i: int| 0 <= i < numero.len() && numero[i] == '/';
    lemma_slash_found(numero, i);
    lemma_segments_ignore_tail(numero, extra);
}

proof fn lemma_slash_found(s: Seq<char>, i: int)
    requires
        0 <= i < s.len(),
        s[i] == '/',
    ensures
        slash_index(s) < s.len(),
    decreases s.len(),
{
    if s[0] != '/' {
        assert(s.drop_first()[i - 1] == '/');
        lemma_slash_found(s.drop_first(), i - 1);
    }
}


/// Read the act out of the text of a detail response: the text is read as JSON (a text that is
/// no JSON document cannot be read, and the error names why), then as `detail_from_response`
/// reads the document.
pub fn parse_detail_response(response_text: &str, conteudo_id: &str, tipo: &str) -> (r: Result<
    DrDetailResult,
    DrError,
>)
    ensures
        match json_text_reading(response_text@) {
            Err(e) => (r matches Err(DrError::Parse { message, source_url }) && message@
                == "Failed to parse DR detail response: "@ + e && source_url@ == DETAIL_URL@),
            Ok(outer) => reads_response(r, outer, conteudo_id@, tipo@),
        },
{
    match read_json_text(response_text) {
        Err(e) => {
            let mut message = String::from_str("Failed to parse DR detail response: ");
            message.append(e.as_str());
            Err(DrError::Parse { message, source_url: String::from_str(DETAIL_URL) })
        },
        Ok(outer) => detail_from_response(&outer, conteudo_id, tipo),
    }
}


/// Each text field of an act read from a detail object is the string member of the same
/// meaning (`id` from `Id`, ..., `notas` from `Notas`), and the empty text only where that
/// member is missing or is no string. Its page address starts with the DR detail path and the
/// whole tipo lowercased (the response's `TipoDiploma`, or the request's tipo where that is
/// empty), and ends with `-` and the act's id; its date is what chrono reads of the string
/// member `DataPublicacao`, and none where there is no such string.
pub proof fn law_act_fields_are_response_members(
    r: DrDetailResult,
    detail: JsonView,
    conteudo_id: Seq<char>,
    tipo: Seq<char>,
    date: Option<(int, int, int)>,
)
    requires
        describes(r, detail, conteudo_id, tipo),
        date == publication_date(detail),
    ensures
        r.id@ == match detail.get("Id"@) {
            Some(JsonView::Str(t)) => t,
            _ => Seq::<char>::empty(),
        },
        r.titulo@ == match detail.get("Titulo"@) {
            Some(JsonView::Str(t)) => t,
            _ => Seq::<char>::empty(),
        },
        r.numero@ == match detail.get("Numero"@) {
            Some(JsonView::Str(t)) => t,
            _ => Seq::<char>::empty(),
        },
        r.publicacao@ == match detail.get("Publicacao"@) {
            Some(JsonView::Str(t)) => t,
            _ => Seq::<char>::empty(),
        },
        r.sumario@ == match detail.get("Sumario"@) {
            Some(JsonView::Str(t)) => t,
            _ => Seq::<char>::empty(),
        },
        r.texto@ == match detail.get("Texto"@) {
            Some(JsonView::Str(t)) => t,
            _ => Seq::<char>::empty(),
        },
        r.emissor@ == match detail.get("Emissor"@) {
            Some(JsonView::Str(t)) => t,
            _ => Seq::<char>::empty(),
        },
        r.serie@ == match detail.get("Serie"@) {
            Some(JsonView::Str(t)) => t,
            _ => Seq::<char>::empty(),
        },
        r.tipo_diploma@ == match detail.get("TipoDiploma"@) {
            Some(JsonView::Str(t)) => t,
            _ => Seq::<char>::empty(),
        },
        r.vigencia@ == match detail.get("Vigencia"@) {
            Some(JsonView::Str(t)) => t,
            _ => Seq::<char>::empty(),
        },
        r.url_pdf@ == match detail.get("URL_PDF"@) {
            Some(JsonView::Str(t)) => t,
            _ => Seq::<char>::empty(),
        },
        r.eli@ == match detail.get("ELI"@) {
            Some(JsonView::Str(t)) => t,
            _ => Seq::<char>::empty(),
        },
        r.notas@ == match detail.get("Notas"@) {
            Some(JsonView::Str(t)) => t,
            _ => Seq::<char>::empty(),
        },
        r.pagina@ == match detail.get("Pagina"@) {
            Some(JsonView::Str(t)) => t,
            _ => Seq::<char>::empty(),
        },
        ({
            let td = match detail.get("TipoDiploma"@) {
                Some(JsonView::Str(t)) => t,
                _ => Seq::<char>::empty(),
            };
            let prefix = "https://diariodarepublica.pt/dr/detalhe/"@ + lowercase(
                if td.len() == 0 {
                    tipo
                } else {
                    td
                },
            ) + "/"@;
            &&& r.dr_url@.len() >= prefix.len() + conteudo_id.len() + 1
            &&& r.dr_url@.take(prefix.len() as int) == prefix
            &&& r.dr_url@.skip(r.dr_url@.len() - conteudo_id.len() - 1) == "-"@ + conteudo_id
        }),
        date == match detail.get("DataPublicacao"@) {
            Some(JsonView::Str(t)) => chrono_parse_ymd(t),
            _ => None,
        },
{
    let td = field_text(detail, "TipoDiploma"@);
    let prefix = "https://diariodarepublica.pt/dr/detalhe/"@ + lowercase(
        if td.len() == 0 {
            tipo
        } else {
            td
        },
    ) + "/"@;
    let s = slug_and_year(field_text(detail, "Numero"@), 0);
    let key = detail_key(s.0, s.1, conteudo_id);
    assert(r.dr_url@ =~= prefix + key);
    assert(key =~= (s.0 + "-"@ + decimal(s.1 as nat)) + ("-"@ + conteudo_id));
    assert(r.dr_url@ =~= (prefix + (s.0 + "-"@ + decimal(s.1 as nat))) + ("-"@ + conteudo_id));
    assert(r.dr_url@.take(prefix.len() as int) =~= prefix);
    assert(r.dr_url@.skip(r.dr_url@.len() - conteudo_id.len() - 1) =~= "-"@ + conteudo_id) by {
        reveal_strlit("-");
    }
}

/// The tipo slug is the whole tipo lowercased: every word of a tipo of several words is kept.
pub proof fn law_tipo_slug_is_whole_tipo_lowercased(tipo: Seq<char>)
    ensures
        tipo_slug_spec(tipo) == lowercase(tipo),
{
}

/// A detail response is read on exactly when its HTTP status is a 2xx success.
pub proof fn law_status_accepted_exactly_when_2xx(status: u16)
    ensures
        is_success_status(status) <==> 200 <= status && status <= 299,
        status == 500 || status == 503 || status == 404 || status == 199 || status == 300
            ==> !is_success_status(status),
{
}

} // verus!
