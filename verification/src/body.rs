use vstd::prelude::*;

use crate::detail::{
    derive_slug_and_year, detail_key, push_detail_key, request_key, slug_and_year, tipo_slug,
    tipo_slug_spec, DETAIL_API_VERSION,
};
use crate::date::{is_date_text, is_timestamp_text};
use crate::json::{
    agree_except, lemma_entries_get_at, number_value, opt_get, push_entry, str_value, Json,
    JsonView,
};
use crate::text::{first_segment, lowercase};
use crate::text::decimal;

verus! {

/// The empty list of the screen model.
pub open spec fn empty_list_spec() -> JsonView {
    JsonView::Object(
        seq![
            ("List"@, JsonView::Array(Seq::empty())),
            ("EmptyListItem"@, JsonView::Str(""@)),
        ],
    )
}

/// `{"List": [], "EmptyListItem": ""}`, the empty list of the screen model.
fn empty_list() -> (r: Json)
    ensures
        r@ == empty_list_spec(),
{
    let mut m0: Vec<(String, Json)> = Vec::new();
    push_entry(&mut m0, "List", Json::Array(Vec::new()));
    push_entry(&mut m0, "EmptyListItem", str_value(""));
    assert(Json::view_entries(m0@) =~= seq![
        ("List"@, JsonView::Array(Seq::empty())),
        ("EmptyListItem"@, JsonView::Str(""@)),
    ]);
    Json::Object(m0)
}

/// An empty aggregation of the search-engine response template.
pub open spec fn empty_agg_spec() -> JsonView {
    JsonView::Object(
        seq![
            ("doc_count_error_upper_bound"@, JsonView::Str("0"@)),
            ("sum_other_doc_count"@, JsonView::Str("0"@)),
            ("buckets"@, JsonView::Object(
                seq![
                    ("List"@, JsonView::Array(Seq::empty())),
                    ("EmptyListItem"@, JsonView::Object(
                        seq![
                            ("key"@, JsonView::Str(""@)),
                            ("doc_count"@, JsonView::Str("0"@)),
                            ("key_as_string"@, JsonView::Str(""@)),
                            ("isActive"@, JsonView::Bool(false)),
                        ],
                    )),
                ],
            )),
        ],
    )
}

/// An empty aggregation of the search-engine response template.
fn empty_agg() -> (r: Json)
    ensures
        r@ == empty_agg_spec(),
{
    let mut m1: Vec<(String, Json)> = Vec::new();
    push_entry(&mut m1, "doc_count_error_upper_bound", str_value("0"));
    push_entry(&mut m1, "sum_other_doc_count", str_value("0"));
    push_entry(&mut m1, "buckets", {
        let mut m2: Vec<(String, Json)> = Vec::new();
        push_entry(&mut m2, "List", Json::Array(Vec::new()));
        push_entry(&mut m2, "EmptyListItem", {
            let mut m3: Vec<(String, Json)> = Vec::new();
            push_entry(&mut m3, "key", str_value(""));
            push_entry(&mut m3, "doc_count", str_value("0"));
            push_entry(&mut m3, "key_as_string", str_value(""));
            push_entry(&mut m3, "isActive", Json::Bool(false));
            assert(Json::view_entries(m3@) =~= seq![
                ("key"@, JsonView::Str(""@)),
                ("doc_count"@, JsonView::Str("0"@)),
                ("key_as_string"@, JsonView::Str(""@)),
                ("isActive"@, JsonView::Bool(false)),
            ]);
            Json::Object(m3)
        });
        assert(Json::view_entries(m2@) =~= seq![
            ("List"@, JsonView::Array(Seq::empty())),
            ("EmptyListItem"@, JsonView::Object(
                seq![
                    ("key"@, JsonView::Str(""@)),
                    ("doc_count"@, JsonView::Str("0"@)),
                    ("key_as_string"@, JsonView::Str(""@)),
                    ("isActive"@, JsonView::Bool(false)),
                ],
            )),
        ]);
        Json::Object(m2)
    });
    assert(Json::view_entries(m1@) =~= seq![
        ("doc_count_error_upper_bound"@, JsonView::Str("0"@)),
        ("sum_other_doc_count"@, JsonView::Str("0"@)),
        ("buckets"@, JsonView::Object(
            seq![
                ("List"@, JsonView::Array(Seq::empty())),
                ("EmptyListItem"@, JsonView::Object(
                    seq![
                        ("key"@, JsonView::Str(""@)),
                        ("doc_count"@, JsonView::Str("0"@)),
                        ("key_as_string"@, JsonView::Str(""@)),
                        ("isActive"@, JsonView::Bool(false)),
                    ],
                )),
            ],
        )),
    ]);
    Json::Object(m1)
}

/// The empty `source` document of the search-engine response template.
pub open spec fn es_source_spec() -> JsonView {
    JsonView::Object(
        seq![
            ("NumeroInt"@, JsonView::Str("0"@)),
            ("DataPublicacaoAJ"@, JsonView::Str("1900-01-01"@)),
            ("DocType"@, JsonView::Str(""@)),
            ("Visibility"@, JsonView::Str(""@)),
            ("Vigencia"@, JsonView::Str(""@)),
            ("Title_bst_10k"@, JsonView::Str(""@)),
            ("TextoEntradaVigor"@, JsonView::Str(""@)),
            ("Type"@, JsonView::Str(""@)),
            ("NumeroFonte"@, JsonView::Str(""@)),
            ("Emissor"@, JsonView::Str(""@)),
            ("Ano"@, JsonView::Str(""@)),
            ("Paginas"@, JsonView::Str(""@)),
            ("TipoAJ"@, JsonView::Str(""@)),
            ("SerieNR"@, JsonView::Str(""@)),
            ("Suplemento"@, JsonView::Str(""@)),
            ("OrdemDR"@, JsonView::Str(""@)),
            ("Texto"@, JsonView::Str(""@)),
            ("ConteudoId"@, JsonView::Str("0"@)),
            ("EntidadePrincipal"@, JsonView::Str(""@)),
            ("DataPublicacao"@, JsonView::Str("1900-01-01"@)),
            ("EntidadeEmitente"@, JsonView::Str(""@)),
            ("DataDistribuicao"@, JsonView::Str("1900-01-01"@)),
            ("PaginaFinal"@, JsonView::Str("0"@)),
            ("Numero"@, JsonView::Str(""@)),
            ("FileId"@, JsonView::Str("0"@)),
            ("TipoConteudo"@, JsonView::Str(""@)),
            ("EntidadeResponsavel"@, JsonView::Str(""@)),
            ("NumeroAJ"@, JsonView::Str(""@)),
            ("DbId"@, JsonView::Str("0"@)),
            ("Thesaurus_descritor_eq"@, JsonView::Str(""@)),
            ("DataAssinatura"@, JsonView::Str("1900-01-01"@)),
            ("WhenSearchable"@, JsonView::Str(""@)),
            ("Id"@, JsonView::Str(""@)),
            ("Title"@, JsonView::Str(""@)),
            ("Ordem"@, JsonView::Str("0"@)),
            ("ConteudoTitle"@, JsonView::Str(""@)),
            ("ClassName"@, JsonView::Str(""@)),
            ("NumeroDR"@, JsonView::Str(""@)),
            ("DataEntradaVigor"@, JsonView::Str("1900-01-01T00:00:00"@)),
            ("PaginaInicial"@, JsonView::Str("0"@)),
            ("Acronimo"@, JsonView::Str(""@)),
            ("TextoAssociacao"@, JsonView::Str(""@)),
            ("Serie"@, JsonView::Str(""@)),
            ("CreationDate"@, JsonView::Str("1900-01-01T00:00:00"@)),
            ("Descritor_texto"@, JsonView::Str(""@)),
            ("ResumoAJ"@, JsonView::Str(""@)),
            ("Sumario"@, JsonView::Str(""@)),
            ("Views"@, JsonView::Str("0"@)),
            ("Fonte"@, JsonView::Str(""@)),
            ("Tipo"@, JsonView::Str(""@)),
            ("ModificationDate"@, JsonView::Str("1900-01-01T00:00:00"@)),
            ("EmissorEN"@, JsonView::Str(""@)),
            ("Parte"@, JsonView::Str(""@)),
            ("TipoEN"@, JsonView::Str(""@)),
            ("TextoNota"@, JsonView::Str(""@)),
            ("resumo"@, JsonView::Str(""@)),
            ("resumoEN"@, JsonView::Str(""@)),
            ("Designacao"@, JsonView::Str(""@)),
            ("ConsolidacaoType"@, JsonView::Str(""@)),
            ("DiplomaBase"@, JsonView::Str(""@)),
            ("concelho"@, JsonView::Str(""@)),
            ("empresa"@, JsonView::Str(""@)),
            ("assunto"@, JsonView::Str(""@)),
            ("consolidacaoEstado"@, JsonView::Str(""@)),
            ("DiplomaFragmentadoId"@, JsonView::Str(""@)),
            ("consolidacaoVisibility"@, JsonView::Str(""@)),
            ("EntidadeProponente"@, JsonView::Str(""@)),
            ("Conteudo"@, JsonView::Bool(false)),
            ("AjPublica"@, JsonView::Bool(false)),
            ("Tratamento"@, JsonView::Bool(false)),
            ("Fragmentado"@, JsonView::Bool(false)),
            ("Regional"@, JsonView::Bool(false)),
            ("IsSelected"@, JsonView::Bool(false)),
            ("CPAlteracao"@, JsonView::Bool(false)),
            ("TipoAssociacao"@, empty_list_spec()),
            ("Descritor"@, empty_list_spec()),
            ("Nota"@, empty_list_spec()),
            ("Thesaurus_descritor_np"@, empty_list_spec()),
            ("Thesaurus_descritor"@, empty_list_spec()),
        ],
    )
}

/// The empty `source` document of the search-engine response template: the string fields with
/// their defaults, the boolean fields set to `false`, the list fields empty.
#[verifier::rlimit(80)]
pub fn build_empty_es_source() -> (r: Json)
    ensures
        r@ == es_source_spec(),
{
    let mut m4: Vec<(String, Json)> = Vec::new();
    push_entry(&mut m4, "NumeroInt", str_value("0"));
    push_entry(&mut m4, "DataPublicacaoAJ", str_value("1900-01-01"));
    push_entry(&mut m4, "DocType", str_value(""));
    push_entry(&mut m4, "Visibility", str_value(""));
    push_entry(&mut m4, "Vigencia", str_value(""));
    push_entry(&mut m4, "Title_bst_10k", str_value(""));
    push_entry(&mut m4, "TextoEntradaVigor", str_value(""));
    push_entry(&mut m4, "Type", str_value(""));
    push_entry(&mut m4, "NumeroFonte", str_value(""));
    push_entry(&mut m4, "Emissor", str_value(""));
    push_entry(&mut m4, "Ano", str_value(""));
    push_entry(&mut m4, "Paginas", str_value(""));
    push_entry(&mut m4, "TipoAJ", str_value(""));
    push_entry(&mut m4, "SerieNR", str_value(""));
    push_entry(&mut m4, "Suplemento", str_value(""));
    push_entry(&mut m4, "OrdemDR", str_value(""));
    push_entry(&mut m4, "Texto", str_value(""));
    push_entry(&mut m4, "ConteudoId", str_value("0"));
    push_entry(&mut m4, "EntidadePrincipal", str_value(""));
    push_entry(&mut m4, "DataPublicacao", str_value("1900-01-01"));
    push_entry(&mut m4, "EntidadeEmitente", str_value(""));
    push_entry(&mut m4, "DataDistribuicao", str_value("1900-01-01"));
    push_entry(&mut m4, "PaginaFinal", str_value("0"));
    push_entry(&mut m4, "Numero", str_value(""));
    push_entry(&mut m4, "FileId", str_value("0"));
    push_entry(&mut m4, "TipoConteudo", str_value(""));
    push_entry(&mut m4, "EntidadeResponsavel", str_value(""));
    push_entry(&mut m4, "NumeroAJ", str_value(""));
    push_entry(&mut m4, "DbId", str_value("0"));
    push_entry(&mut m4, "Thesaurus_descritor_eq", str_value(""));
    push_entry(&mut m4, "DataAssinatura", str_value("1900-01-01"));
    push_entry(&mut m4, "WhenSearchable", str_value(""));
    push_entry(&mut m4, "Id", str_value(""));
    push_entry(&mut m4, "Title", str_value(""));
    push_entry(&mut m4, "Ordem", str_value("0"));
    push_entry(&mut m4, "ConteudoTitle", str_value(""));
    push_entry(&mut m4, "ClassName", str_value(""));
    push_entry(&mut m4, "NumeroDR", str_value(""));
    push_entry(&mut m4, "DataEntradaVigor", str_value("1900-01-01T00:00:00"));
    push_entry(&mut m4, "PaginaInicial", str_value("0"));
    push_entry(&mut m4, "Acronimo", str_value(""));
    push_entry(&mut m4, "TextoAssociacao", str_value(""));
    push_entry(&mut m4, "Serie", str_value(""));
    push_entry(&mut m4, "CreationDate", str_value("1900-01-01T00:00:00"));
    push_entry(&mut m4, "Descritor_texto", str_value(""));
    push_entry(&mut m4, "ResumoAJ", str_value(""));
    push_entry(&mut m4, "Sumario", str_value(""));
    push_entry(&mut m4, "Views", str_value("0"));
    push_entry(&mut m4, "Fonte", str_value(""));
    push_entry(&mut m4, "Tipo", str_value(""));
    push_entry(&mut m4, "ModificationDate", str_value("1900-01-01T00:00:00"));
    push_entry(&mut m4, "EmissorEN", str_value(""));
    push_entry(&mut m4, "Parte", str_value(""));
    push_entry(&mut m4, "TipoEN", str_value(""));
    push_entry(&mut m4, "TextoNota", str_value(""));
    push_entry(&mut m4, "resumo", str_value(""));
    push_entry(&mut m4, "resumoEN", str_value(""));
    push_entry(&mut m4, "Designacao", str_value(""));
    push_entry(&mut m4, "ConsolidacaoType", str_value(""));
    push_entry(&mut m4, "DiplomaBase", str_value(""));
    push_entry(&mut m4, "concelho", str_value(""));
    push_entry(&mut m4, "empresa", str_value(""));
    push_entry(&mut m4, "assunto", str_value(""));
    push_entry(&mut m4, "consolidacaoEstado", str_value(""));
    push_entry(&mut m4, "DiplomaFragmentadoId", str_value(""));
    push_entry(&mut m4, "consolidacaoVisibility", str_value(""));
    push_entry(&mut m4, "EntidadeProponente", str_value(""));
    push_entry(&mut m4, "Conteudo", Json::Bool(false));
    push_entry(&mut m4, "AjPublica", Json::Bool(false));
    push_entry(&mut m4, "Tratamento", Json::Bool(false));
    push_entry(&mut m4, "Fragmentado", Json::Bool(false));
    push_entry(&mut m4, "Regional", Json::Bool(false));
    push_entry(&mut m4, "IsSelected", Json::Bool(false));
    push_entry(&mut m4, "CPAlteracao", Json::Bool(false));
    push_entry(&mut m4, "TipoAssociacao", empty_list());
    push_entry(&mut m4, "Descritor", empty_list());
    push_entry(&mut m4, "Nota", empty_list());
    push_entry(&mut m4, "Thesaurus_descritor_np", empty_list());
    push_entry(&mut m4, "Thesaurus_descritor", empty_list());
    assert(Json::view_entries(m4@) =~= seq![
        ("NumeroInt"@, JsonView::Str("0"@)),
        ("DataPublicacaoAJ"@, JsonView::Str("1900-01-01"@)),
        ("DocType"@, JsonView::Str(""@)),
        ("Visibility"@, JsonView::Str(""@)),
        ("Vigencia"@, JsonView::Str(""@)),
        ("Title_bst_10k"@, JsonView::Str(""@)),
        ("TextoEntradaVigor"@, JsonView::Str(""@)),
        ("Type"@, JsonView::Str(""@)),
        ("NumeroFonte"@, JsonView::Str(""@)),
        ("Emissor"@, JsonView::Str(""@)),
        ("Ano"@, JsonView::Str(""@)),
        ("Paginas"@, JsonView::Str(""@)),
        ("TipoAJ"@, JsonView::Str(""@)),
        ("SerieNR"@, JsonView::Str(""@)),
        ("Suplemento"@, JsonView::Str(""@)),
        ("OrdemDR"@, JsonView::Str(""@)),
        ("Texto"@, JsonView::Str(""@)),
        ("ConteudoId"@, JsonView::Str("0"@)),
        ("EntidadePrincipal"@, JsonView::Str(""@)),
        ("DataPublicacao"@, JsonView::Str("1900-01-01"@)),
        ("EntidadeEmitente"@, JsonView::Str(""@)),
        ("DataDistribuicao"@, JsonView::Str("1900-01-01"@)),
        ("PaginaFinal"@, JsonView::Str("0"@)),
        ("Numero"@, JsonView::Str(""@)),
        ("FileId"@, JsonView::Str("0"@)),
        ("TipoConteudo"@, JsonView::Str(""@)),
        ("EntidadeResponsavel"@, JsonView::Str(""@)),
        ("NumeroAJ"@, JsonView::Str(""@)),
        ("DbId"@, JsonView::Str("0"@)),
        ("Thesaurus_descritor_eq"@, JsonView::Str(""@)),
        ("DataAssinatura"@, JsonView::Str("1900-01-01"@)),
        ("WhenSearchable"@, JsonView::Str(""@)),
        ("Id"@, JsonView::Str(""@)),
        ("Title"@, JsonView::Str(""@)),
        ("Ordem"@, JsonView::Str("0"@)),
        ("ConteudoTitle"@, JsonView::Str(""@)),
        ("ClassName"@, JsonView::Str(""@)),
        ("NumeroDR"@, JsonView::Str(""@)),
        ("DataEntradaVigor"@, JsonView::Str("1900-01-01T00:00:00"@)),
        ("PaginaInicial"@, JsonView::Str("0"@)),
        ("Acronimo"@, JsonView::Str(""@)),
        ("TextoAssociacao"@, JsonView::Str(""@)),
        ("Serie"@, JsonView::Str(""@)),
        ("CreationDate"@, JsonView::Str("1900-01-01T00:00:00"@)),
        ("Descritor_texto"@, JsonView::Str(""@)),
        ("ResumoAJ"@, JsonView::Str(""@)),
        ("Sumario"@, JsonView::Str(""@)),
        ("Views"@, JsonView::Str("0"@)),
        ("Fonte"@, JsonView::Str(""@)),
        ("Tipo"@, JsonView::Str(""@)),
        ("ModificationDate"@, JsonView::Str("1900-01-01T00:00:00"@)),
        ("EmissorEN"@, JsonView::Str(""@)),
        ("Parte"@, JsonView::Str(""@)),
        ("TipoEN"@, JsonView::Str(""@)),
        ("TextoNota"@, JsonView::Str(""@)),
        ("resumo"@, JsonView::Str(""@)),
        ("resumoEN"@, JsonView::Str(""@)),
        ("Designacao"@, JsonView::Str(""@)),
        ("ConsolidacaoType"@, JsonView::Str(""@)),
        ("DiplomaBase"@, JsonView::Str(""@)),
        ("concelho"@, JsonView::Str(""@)),
        ("empresa"@, JsonView::Str(""@)),
        ("assunto"@, JsonView::Str(""@)),
        ("consolidacaoEstado"@, JsonView::Str(""@)),
        ("DiplomaFragmentadoId"@, JsonView::Str(""@)),
        ("consolidacaoVisibility"@, JsonView::Str(""@)),
        ("EntidadeProponente"@, JsonView::Str(""@)),
        ("Conteudo"@, JsonView::Bool(false)),
        ("AjPublica"@, JsonView::Bool(false)),
        ("Tratamento"@, JsonView::Bool(false)),
        ("Fragmentado"@, JsonView::Bool(false)),
        ("Regional"@, JsonView::Bool(false)),
        ("IsSelected"@, JsonView::Bool(false)),
        ("CPAlteracao"@, JsonView::Bool(false)),
        ("TipoAssociacao"@, empty_list_spec()),
        ("Descritor"@, empty_list_spec()),
        ("Nota"@, empty_list_spec()),
        ("Thesaurus_descritor_np"@, empty_list_spec()),
        ("Thesaurus_descritor"@, empty_list_spec()),
    ]);
    Json::Object(m4)
}

/// The minimal empty search-engine response that the screen model requires.
pub open spec fn es_template_spec() -> JsonView {
    JsonView::Object(
        seq![
            ("Took"@, JsonView::Str("0"@)),
            ("Timed_out"@, JsonView::Bool(false)),
            ("shards"@, JsonView::Object(
                seq![
                    ("Total"@, JsonView::Str("0"@)),
                    ("Successful"@, JsonView::Str("0"@)),
                    ("Skipped"@, JsonView::Str("0"@)),
                    ("Failed"@, JsonView::Str("0"@)),
                ],
            )),
            ("Hits"@, JsonView::Object(
                seq![
                    ("Total"@, JsonView::Object(
                        seq![
                            ("Value"@, JsonView::Str("0"@)),
                            ("Relation"@, JsonView::Str(""@)),
                        ],
                    )),
                    ("Max_score"@, JsonView::Str("0"@)),
                    ("Hits"@, JsonView::Object(
                        seq![
                            ("List"@, JsonView::Array(Seq::empty())),
                            ("EmptyListItem"@, JsonView::Object(
                                seq![
                                    ("index"@, JsonView::Str(""@)),
                                    ("type"@, JsonView::Str(""@)),
                                    ("id"@, JsonView::Str(""@)),
                                    ("score"@, JsonView::Str("0"@)),
                                    ("source"@, es_source_spec()),
                                    ("Highlight"@, JsonView::Object(
                                        seq![
                                            ("Title"@, JsonView::Object(
                                                seq![
                                                    ("List"@, JsonView::Array(Seq::empty())),
                                                    ("EmptyListItem"@, JsonView::Str(""@)),
                                                ],
                                            )),
                                            ("Sumario"@, JsonView::Object(
                                                seq![
                                                    ("List"@, JsonView::Array(Seq::empty())),
                                                    ("EmptyListItem"@, JsonView::Str(""@)),
                                                ],
                                            )),
                                            ("Designacao"@, JsonView::Object(
                                                seq![
                                                    ("List"@, JsonView::Array(Seq::empty())),
                                                    ("EmptyListItem"@, JsonView::Str(""@)),
                                                ],
                                            )),
                                            ("Texto"@, JsonView::Object(
                                                seq![
                                                    ("List"@, JsonView::Array(Seq::empty())),
                                                    ("EmptyListItem"@, JsonView::Str(""@)),
                                                ],
                                            )),
                                        ],
                                    )),
                                ],
                            )),
                        ],
                    )),
                ],
            )),
            ("aggregations"@, JsonView::Object(
                seq![
                    ("SerieAgg"@, empty_agg_spec()),
                    ("TipoAtoAgg"@, empty_agg_spec()),
                    ("TipoConteudoAgg"@, empty_agg_spec()),
                    ("EntidadeEmitenteAgg"@, empty_agg_spec()),
                    ("EntidadeProponenteAgg"@, empty_agg_spec()),
                    ("EntidadePrincipalAgg"@, empty_agg_spec()),
                    ("TipoConteudoAggOutros"@, empty_agg_spec()),
                    ("EmissorAgg"@, empty_agg_spec()),
                    ("DescritorAgg"@, empty_agg_spec()),
                    ("ParteAgg"@, empty_agg_spec()),
                    ("CalendarioAgg"@, empty_agg_spec()),
                    ("JurisprudenciaAgg"@, empty_agg_spec()),
                    ("JurisAggs"@, JsonView::Object(
                        seq![
                            ("buckets"@, JsonView::Object(
                                seq![
                                    ("List"@, JsonView::Array(Seq::empty())),
                                    ("EmptyListItem"@, JsonView::Object(
                                        seq![
                                            ("key"@, JsonView::Str(""@)),
                                            ("doc_count"@, JsonView::Str("0"@)),
                                            ("key_as_string"@, JsonView::Str(""@)),
                                            ("isActive"@, JsonView::Bool(false)),
                                        ],
                                    )),
                                ],
                            )),
                        ],
                    )),
                    ("VigenciaAgg"@, empty_agg_spec()),
                    ("ConsolidacaoEstadoAgg"@, empty_agg_spec()),
                    ("ConsolidacaoVisibilityAgg"@, empty_agg_spec()),
                ],
            )),
        ],
    )
}

/// Build a minimal empty ES response structure required by the `OutSystems` screen model.
pub fn build_empty_es_template() -> (r: Json)
    ensures
        r@ == es_template_spec(),
{
    let mut m5: Vec<(String, Json)> = Vec::new();
    push_entry(&mut m5, "Took", str_value("0"));
    push_entry(&mut m5, "Timed_out", Json::Bool(false));
    push_entry(&mut m5, "shards", {
        let mut m6: Vec<(String, Json)> = Vec::new();
        push_entry(&mut m6, "Total", str_value("0"));
        push_entry(&mut m6, "Successful", str_value("0"));
        push_entry(&mut m6, "Skipped", str_value("0"));
        push_entry(&mut m6, "Failed", str_value("0"));
        assert(Json::view_entries(m6@) =~= seq![
            ("Total"@, JsonView::Str("0"@)),
            ("Successful"@, JsonView::Str("0"@)),
            ("Skipped"@, JsonView::Str("0"@)),
            ("Failed"@, JsonView::Str("0"@)),
        ]);
        Json::Object(m6)
    });
    push_entry(&mut m5, "Hits", {
        let mut m7: Vec<(String, Json)> = Vec::new();
        push_entry(&mut m7, "Total", {
            let mut m8: Vec<(String, Json)> = Vec::new();
            push_entry(&mut m8, "Value", str_value("0"));
            push_entry(&mut m8, "Relation", str_value(""));
            assert(Json::view_entries(m8@) =~= seq![
                ("Value"@, JsonView::Str("0"@)),
                ("Relation"@, JsonView::Str(""@)),
            ]);
            Json::Object(m8)
        });
        push_entry(&mut m7, "Max_score", str_value("0"));
        push_entry(&mut m7, "Hits", {
            let mut m9: Vec<(String, Json)> = Vec::new();
            push_entry(&mut m9, "List", Json::Array(Vec::new()));
            push_entry(&mut m9, "EmptyListItem", {
                let mut m10: Vec<(String, Json)> = Vec::new();
                push_entry(&mut m10, "index", str_value(""));
                push_entry(&mut m10, "type", str_value(""));
                push_entry(&mut m10, "id", str_value(""));
                push_entry(&mut m10, "score", str_value("0"));
                push_entry(&mut m10, "source", build_empty_es_source());
                push_entry(&mut m10, "Highlight", {
                    let mut m11: Vec<(String, Json)> = Vec::new();
                    push_entry(&mut m11, "Title", {
                        let mut m12: Vec<(String, Json)> = Vec::new();
                        push_entry(&mut m12, "List", Json::Array(Vec::new()));
                        push_entry(&mut m12, "EmptyListItem", str_value(""));
                        assert(Json::view_entries(m12@) =~= seq![
                            ("List"@, JsonView::Array(Seq::empty())),
                            ("EmptyListItem"@, JsonView::Str(""@)),
                        ]);
                        Json::Object(m12)
                    });
                    push_entry(&mut m11, "Sumario", {
                        let mut m13: Vec<(String, Json)> = Vec::new();
                        push_entry(&mut m13, "List", Json::Array(Vec::new()));
                        push_entry(&mut m13, "EmptyListItem", str_value(""));
                        assert(Json::view_entries(m13@) =~= seq![
                            ("List"@, JsonView::Array(Seq::empty())),
                            ("EmptyListItem"@, JsonView::Str(""@)),
                        ]);
                        Json::Object(m13)
                    });
                    push_entry(&mut m11, "Designacao", {
                        let mut m14: Vec<(String, Json)> = Vec::new();
                        push_entry(&mut m14, "List", Json::Array(Vec::new()));
                        push_entry(&mut m14, "EmptyListItem", str_value(""));
                        assert(Json::view_entries(m14@) =~= seq![
                            ("List"@, JsonView::Array(Seq::empty())),
                            ("EmptyListItem"@, JsonView::Str(""@)),
                        ]);
                        Json::Object(m14)
                    });
                    push_entry(&mut m11, "Texto", {
                        let mut m15: Vec<(String, Json)> = Vec::new();
                        push_entry(&mut m15, "List", Json::Array(Vec::new()));
                        push_entry(&mut m15, "EmptyListItem", str_value(""));
                        assert(Json::view_entries(m15@) =~= seq![
                            ("List"@, JsonView::Array(Seq::empty())),
                            ("EmptyListItem"@, JsonView::Str(""@)),
                        ]);
                        Json::Object(m15)
                    });
                    assert(Json::view_entries(m11@) =~= seq![
                        ("Title"@, JsonView::Object(
                            seq![
                                ("List"@, JsonView::Array(Seq::empty())),
                                ("EmptyListItem"@, JsonView::Str(""@)),
                            ],
                        )),
                        ("Sumario"@, JsonView::Object(
                            seq![
                                ("List"@, JsonView::Array(Seq::empty())),
                                ("EmptyListItem"@, JsonView::Str(""@)),
                            ],
                        )),
                        ("Designacao"@, JsonView::Object(
                            seq![
                                ("List"@, JsonView::Array(Seq::empty())),
                                ("EmptyListItem"@, JsonView::Str(""@)),
                            ],
                        )),
                        ("Texto"@, JsonView::Object(
                            seq![
                                ("List"@, JsonView::Array(Seq::empty())),
                                ("EmptyListItem"@, JsonView::Str(""@)),
                            ],
                        )),
                    ]);
                    Json::Object(m11)
                });
                assert(Json::view_entries(m10@) =~= seq![
                    ("index"@, JsonView::Str(""@)),
                    ("type"@, JsonView::Str(""@)),
                    ("id"@, JsonView::Str(""@)),
                    ("score"@, JsonView::Str("0"@)),
                    ("source"@, es_source_spec()),
                    ("Highlight"@, JsonView::Object(
                        seq![
                            ("Title"@, JsonView::Object(
                                seq![
                                    ("List"@, JsonView::Array(Seq::empty())),
                                    ("EmptyListItem"@, JsonView::Str(""@)),
                                ],
                            )),
                            ("Sumario"@, JsonView::Object(
                                seq![
                                    ("List"@, JsonView::Array(Seq::empty())),
                                    ("EmptyListItem"@, JsonView::Str(""@)),
                                ],
                            )),
                            ("Designacao"@, JsonView::Object(
                                seq![
                                    ("List"@, JsonView::Array(Seq::empty())),
                                    ("EmptyListItem"@, JsonView::Str(""@)),
                                ],
                            )),
                            ("Texto"@, JsonView::Object(
                                seq![
                                    ("List"@, JsonView::Array(Seq::empty())),
                                    ("EmptyListItem"@, JsonView::Str(""@)),
                                ],
                            )),
                        ],
                    )),
                ]);
                Json::Object(m10)
            });
            assert(Json::view_entries(m9@) =~= seq![
                ("List"@, JsonView::Array(Seq::empty())),
                ("EmptyListItem"@, JsonView::Object(
                    seq![
                        ("index"@, JsonView::Str(""@)),
                        ("type"@, JsonView::Str(""@)),
                        ("id"@, JsonView::Str(""@)),
                        ("score"@, JsonView::Str("0"@)),
                        ("source"@, es_source_spec()),
                        ("Highlight"@, JsonView::Object(
                            seq![
                                ("Title"@, JsonView::Object(
                                    seq![
                                        ("List"@, JsonView::Array(Seq::empty())),
                                        ("EmptyListItem"@, JsonView::Str(""@)),
                                    ],
                                )),
                                ("Sumario"@, JsonView::Object(
                                    seq![
                                        ("List"@, JsonView::Array(Seq::empty())),
                                        ("EmptyListItem"@, JsonView::Str(""@)),
                                    ],
                                )),
                                ("Designacao"@, JsonView::Object(
                                    seq![
                                        ("List"@, JsonView::Array(Seq::empty())),
                                        ("EmptyListItem"@, JsonView::Str(""@)),
                                    ],
                                )),
                                ("Texto"@, JsonView::Object(
                                    seq![
                                        ("List"@, JsonView::Array(Seq::empty())),
                                        ("EmptyListItem"@, JsonView::Str(""@)),
                                    ],
                                )),
                            ],
                        )),
                    ],
                )),
            ]);
            Json::Object(m9)
        });
        assert(Json::view_entries(m7@) =~= seq![
            ("Total"@, JsonView::Object(
                seq![
                    ("Value"@, JsonView::Str("0"@)),
                    ("Relation"@, JsonView::Str(""@)),
                ],
            )),
            ("Max_score"@, JsonView::Str("0"@)),
            ("Hits"@, JsonView::Object(
                seq![
                    ("List"@, JsonView::Array(Seq::empty())),
                    ("EmptyListItem"@, JsonView::Object(
                        seq![
                            ("index"@, JsonView::Str(""@)),
                            ("type"@, JsonView::Str(""@)),
                            ("id"@, JsonView::Str(""@)),
                            ("score"@, JsonView::Str("0"@)),
                            ("source"@, es_source_spec()),
                            ("Highlight"@, JsonView::Object(
                                seq![
                                    ("Title"@, JsonView::Object(
                                        seq![
                                            ("List"@, JsonView::Array(Seq::empty())),
                                            ("EmptyListItem"@, JsonView::Str(""@)),
                                        ],
                                    )),
                                    ("Sumario"@, JsonView::Object(
                                        seq![
                                            ("List"@, JsonView::Array(Seq::empty())),
                                            ("EmptyListItem"@, JsonView::Str(""@)),
                                        ],
                                    )),
                                    ("Designacao"@, JsonView::Object(
                                        seq![
                                            ("List"@, JsonView::Array(Seq::empty())),
                                            ("EmptyListItem"@, JsonView::Str(""@)),
                                        ],
                                    )),
                                    ("Texto"@, JsonView::Object(
                                        seq![
                                            ("List"@, JsonView::Array(Seq::empty())),
                                            ("EmptyListItem"@, JsonView::Str(""@)),
                                        ],
                                    )),
                                ],
                            )),
                        ],
                    )),
                ],
            )),
        ]);
        Json::Object(m7)
    });
    push_entry(&mut m5, "aggregations", {
        let mut m16: Vec<(String, Json)> = Vec::new();
        push_entry(&mut m16, "SerieAgg", empty_agg());
        push_entry(&mut m16, "TipoAtoAgg", empty_agg());
        push_entry(&mut m16, "TipoConteudoAgg", empty_agg());
        push_entry(&mut m16, "EntidadeEmitenteAgg", empty_agg());
        push_entry(&mut m16, "EntidadeProponenteAgg", empty_agg());
        push_entry(&mut m16, "EntidadePrincipalAgg", empty_agg());
        push_entry(&mut m16, "TipoConteudoAggOutros", empty_agg());
        push_entry(&mut m16, "EmissorAgg", empty_agg());
        push_entry(&mut m16, "DescritorAgg", empty_agg());
        push_entry(&mut m16, "ParteAgg", empty_agg());
        push_entry(&mut m16, "CalendarioAgg", empty_agg());
        push_entry(&mut m16, "JurisprudenciaAgg", empty_agg());
        push_entry(&mut m16, "JurisAggs", {
            let mut m17: Vec<(String, Json)> = Vec::new();
            push_entry(&mut m17, "buckets", {
                let mut m18: Vec<(String, Json)> = Vec::new();
                push_entry(&mut m18, "List", Json::Array(Vec::new()));
                push_entry(&mut m18, "EmptyListItem", {
                    let mut m19: Vec<(String, Json)> = Vec::new();
                    push_entry(&mut m19, "key", str_value(""));
                    push_entry(&mut m19, "doc_count", str_value("0"));
                    push_entry(&mut m19, "key_as_string", str_value(""));
                    push_entry(&mut m19, "isActive", Json::Bool(false));
                    assert(Json::view_entries(m19@) =~= seq![
                        ("key"@, JsonView::Str(""@)),
                        ("doc_count"@, JsonView::Str("0"@)),
                        ("key_as_string"@, JsonView::Str(""@)),
                        ("isActive"@, JsonView::Bool(false)),
                    ]);
                    Json::Object(m19)
                });
                assert(Json::view_entries(m18@) =~= seq![
                    ("List"@, JsonView::Array(Seq::empty())),
                    ("EmptyListItem"@, JsonView::Object(
                        seq![
                            ("key"@, JsonView::Str(""@)),
                            ("doc_count"@, JsonView::Str("0"@)),
                            ("key_as_string"@, JsonView::Str(""@)),
                            ("isActive"@, JsonView::Bool(false)),
                        ],
                    )),
                ]);
                Json::Object(m18)
            });
            assert(Json::view_entries(m17@) =~= seq![
                ("buckets"@, JsonView::Object(
                    seq![
                        ("List"@, JsonView::Array(Seq::empty())),
                        ("EmptyListItem"@, JsonView::Object(
                            seq![
                                ("key"@, JsonView::Str(""@)),
                                ("doc_count"@, JsonView::Str("0"@)),
                                ("key_as_string"@, JsonView::Str(""@)),
                                ("isActive"@, JsonView::Bool(false)),
                            ],
                        )),
                    ],
                )),
            ]);
            Json::Object(m17)
        });
        push_entry(&mut m16, "VigenciaAgg", empty_agg());
        push_entry(&mut m16, "ConsolidacaoEstadoAgg", empty_agg());
        push_entry(&mut m16, "ConsolidacaoVisibilityAgg", empty_agg());
        assert(Json::view_entries(m16@) =~= seq![
            ("SerieAgg"@, empty_agg_spec()),
            ("TipoAtoAgg"@, empty_agg_spec()),
            ("TipoConteudoAgg"@, empty_agg_spec()),
            ("EntidadeEmitenteAgg"@, empty_agg_spec()),
            ("EntidadeProponenteAgg"@, empty_agg_spec()),
            ("EntidadePrincipalAgg"@, empty_agg_spec()),
            ("TipoConteudoAggOutros"@, empty_agg_spec()),
            ("EmissorAgg"@, empty_agg_spec()),
            ("DescritorAgg"@, empty_agg_spec()),
            ("ParteAgg"@, empty_agg_spec()),
            ("CalendarioAgg"@, empty_agg_spec()),
            ("JurisprudenciaAgg"@, empty_agg_spec()),
            ("JurisAggs"@, JsonView::Object(
                seq![
                    ("buckets"@, JsonView::Object(
                        seq![
                            ("List"@, JsonView::Array(Seq::empty())),
                            ("EmptyListItem"@, JsonView::Object(
                                seq![
                                    ("key"@, JsonView::Str(""@)),
                                    ("doc_count"@, JsonView::Str("0"@)),
                                    ("key_as_string"@, JsonView::Str(""@)),
                                    ("isActive"@, JsonView::Bool(false)),
                                ],
                            )),
                        ],
                    )),
                ],
            )),
            ("VigenciaAgg"@, empty_agg_spec()),
            ("ConsolidacaoEstadoAgg"@, empty_agg_spec()),
            ("ConsolidacaoVisibilityAgg"@, empty_agg_spec()),
        ]);
        Json::Object(m16)
    });
    assert(Json::view_entries(m5@) =~= seq![
        ("Took"@, JsonView::Str("0"@)),
        ("Timed_out"@, JsonView::Bool(false)),
        ("shards"@, JsonView::Object(
            seq![
                ("Total"@, JsonView::Str("0"@)),
                ("Successful"@, JsonView::Str("0"@)),
                ("Skipped"@, JsonView::Str("0"@)),
                ("Failed"@, JsonView::Str("0"@)),
            ],
        )),
        ("Hits"@, JsonView::Object(
            seq![
                ("Total"@, JsonView::Object(
                    seq![
                        ("Value"@, JsonView::Str("0"@)),
                        ("Relation"@, JsonView::Str(""@)),
                    ],
                )),
                ("Max_score"@, JsonView::Str("0"@)),
                ("Hits"@, JsonView::Object(
                    seq![
                        ("List"@, JsonView::Array(Seq::empty())),
                        ("EmptyListItem"@, JsonView::Object(
                            seq![
                                ("index"@, JsonView::Str(""@)),
                                ("type"@, JsonView::Str(""@)),
                                ("id"@, JsonView::Str(""@)),
                                ("score"@, JsonView::Str("0"@)),
                                ("source"@, es_source_spec()),
                                ("Highlight"@, JsonView::Object(
                                    seq![
                                        ("Title"@, JsonView::Object(
                                            seq![
                                                ("List"@, JsonView::Array(Seq::empty())),
                                                ("EmptyListItem"@, JsonView::Str(""@)),
                                            ],
                                        )),
                                        ("Sumario"@, JsonView::Object(
                                            seq![
                                                ("List"@, JsonView::Array(Seq::empty())),
                                                ("EmptyListItem"@, JsonView::Str(""@)),
                                            ],
                                        )),
                                        ("Designacao"@, JsonView::Object(
                                            seq![
                                                ("List"@, JsonView::Array(Seq::empty())),
                                                ("EmptyListItem"@, JsonView::Str(""@)),
                                            ],
                                        )),
                                        ("Texto"@, JsonView::Object(
                                            seq![
                                                ("List"@, JsonView::Array(Seq::empty())),
                                                ("EmptyListItem"@, JsonView::Str(""@)),
                                            ],
                                        )),
                                    ],
                                )),
                            ],
                        )),
                    ],
                )),
            ],
        )),
        ("aggregations"@, JsonView::Object(
            seq![
                ("SerieAgg"@, empty_agg_spec()),
                ("TipoAtoAgg"@, empty_agg_spec()),
                ("TipoConteudoAgg"@, empty_agg_spec()),
                ("EntidadeEmitenteAgg"@, empty_agg_spec()),
                ("EntidadeProponenteAgg"@, empty_agg_spec()),
                ("EntidadePrincipalAgg"@, empty_agg_spec()),
                ("TipoConteudoAggOutros"@, empty_agg_spec()),
                ("EmissorAgg"@, empty_agg_spec()),
                ("DescritorAgg"@, empty_agg_spec()),
                ("ParteAgg"@, empty_agg_spec()),
                ("CalendarioAgg"@, empty_agg_spec()),
                ("JurisprudenciaAgg"@, empty_agg_spec()),
                ("JurisAggs"@, JsonView::Object(
                    seq![
                        ("buckets"@, JsonView::Object(
                            seq![
                                ("List"@, JsonView::Array(Seq::empty())),
                                ("EmptyListItem"@, JsonView::Object(
                                    seq![
                                        ("key"@, JsonView::Str(""@)),
                                        ("doc_count"@, JsonView::Str("0"@)),
                                        ("key_as_string"@, JsonView::Str(""@)),
                                        ("isActive"@, JsonView::Bool(false)),
                                    ],
                                )),
                            ],
                        )),
                    ],
                )),
                ("VigenciaAgg"@, empty_agg_spec()),
                ("ConsolidacaoEstadoAgg"@, empty_agg_spec()),
                ("ConsolidacaoVisibilityAgg"@, empty_agg_spec()),
            ],
        )),
    ]);
    Json::Object(m5)
}

/// The screen variables of the detail request.
pub open spec fn screen_variables_spec(
    conteudo_id: Seq<char>,
    numero_slug: Seq<char>,
    year: u32,
    tipo_slug: Seq<char>,
    key: Seq<char>,
) -> JsonView {
    JsonView::Object(
        seq![
            ("ParteIdAux"@, JsonView::Str("0"@)),
            ("DetalheConteudoElastic"@, es_template_spec()),
            ("IsRended"@, JsonView::Bool(false)),
            ("DiarioRepId"@, JsonView::Str("0"@)),
            ("DipLegisId"@, JsonView::Str(conteudo_id)),
            ("DipDGOId"@, JsonView::Str("0"@)),
            ("DipRegTrabId"@, JsonView::Str("0"@)),
            ("DipLegacorId"@, JsonView::Str("0"@)),
            ("DipDGAPId"@, JsonView::Str("0"@)),
            ("ActSocId"@, JsonView::Str("0"@)),
            ("AcSTADipId"@, JsonView::Str("0"@)),
            ("ContPubId"@, JsonView::Str("0"@)),
            ("DiplExtId"@, JsonView::Str("0"@)),
            ("ConteudoId"@, JsonView::Str(conteudo_id)),
            ("Pesquisa"@, JsonView::Str(""@)),
            ("Comes1"@, JsonView::Str("Pesquisa"@)),
            ("Numero"@, JsonView::Str(numero_slug)),
            ("Year"@, JsonView::Number(decimal(year as nat))),
            ("length"@, JsonView::Number(decimal(0))),
            ("ShowResumoPT"@, JsonView::Bool(false)),
            ("HasJurisprudenciaAssociadaVar"@, JsonView::Bool(false)),
            ("IsPageTracked"@, JsonView::Bool(false)),
            ("ShowDiplomaFragmentacaoIndice"@, JsonView::Bool(false)),
            ("ShowDiplomaFragmentacaoTextoCompleto"@, JsonView::Bool(false)),
            ("ShowDiplomaFragmentacaoMenuCabecalho"@, JsonView::Bool(false)),
            ("ShowDiplomaAtoOriginalTexto"@, JsonView::Bool(true)),
            ("ELI_HTML"@, JsonView::Str(""@)),
            ("IsShowConteudoRelacionado"@, JsonView::Bool(true)),
            ("IsRefinarPesquisa"@, JsonView::Bool(true)),
            ("IsToHideElements"@, JsonView::Bool(false)),
            ("TextoFormatadoAux"@, JsonView::Str(""@)),
            ("FragmentoVersaoId"@, JsonView::Str("0"@)),
            ("IsPrint"@, JsonView::Bool(false)),
            ("IsLoadingPDFAtoOriginal"@, JsonView::Bool(false)),
            ("IsCopyTextLoading"@, JsonView::Bool(false)),
            ("ShowScrollButtons"@, JsonView::Bool(true)),
            ("KeyAux"@, JsonView::Str(""@)),
            ("Tipo"@, JsonView::Str(tipo_slug)),
            ("_tipoInDataFetchStatus"@, JsonView::Number(decimal(1))),
            ("Key"@, JsonView::Str(key)),
            ("_keyInDataFetchStatus"@, JsonView::Number(decimal(1))),
            ("ParteId"@, JsonView::Str("0"@)),
            ("_parteIdInDataFetchStatus"@, JsonView::Number(decimal(1))),
            ("Emissor_Designacao"@, JsonView::Str(""@)),
            ("_emissor_DesignacaoInDataFetchStatus"@, JsonView::Number(decimal(1))),
        ],
    )
}

/// The screen variables of the detail request.
pub fn build_screen_variables(
    conteudo_id: &str,
    numero_slug: &str,
    year: u32,
    tipo_slug: &str,
    key: &str,
) -> (r: Json)
    ensures
        r@ == screen_variables_spec(conteudo_id@, numero_slug@, year, tipo_slug@, key@),
{
    let mut m20: Vec<(String, Json)> = Vec::new();
    push_entry(&mut m20, "ParteIdAux", str_value("0"));
    push_entry(&mut m20, "DetalheConteudoElastic", build_empty_es_template());
    push_entry(&mut m20, "IsRended", Json::Bool(false));
    push_entry(&mut m20, "DiarioRepId", str_value("0"));
    push_entry(&mut m20, "DipLegisId", str_value(conteudo_id));
    push_entry(&mut m20, "DipDGOId", str_value("0"));
    push_entry(&mut m20, "DipRegTrabId", str_value("0"));
    push_entry(&mut m20, "DipLegacorId", str_value("0"));
    push_entry(&mut m20, "DipDGAPId", str_value("0"));
    push_entry(&mut m20, "ActSocId", str_value("0"));
    push_entry(&mut m20, "AcSTADipId", str_value("0"));
    push_entry(&mut m20, "ContPubId", str_value("0"));
    push_entry(&mut m20, "DiplExtId", str_value("0"));
    push_entry(&mut m20, "ConteudoId", str_value(conteudo_id));
    push_entry(&mut m20, "Pesquisa", str_value(""));
    push_entry(&mut m20, "Comes1", str_value("Pesquisa"));
    push_entry(&mut m20, "Numero", str_value(numero_slug));
    push_entry(&mut m20, "Year", number_value(year));
    push_entry(&mut m20, "length", number_value(0));
    push_entry(&mut m20, "ShowResumoPT", Json::Bool(false));
    push_entry(&mut m20, "HasJurisprudenciaAssociadaVar", Json::Bool(false));
    push_entry(&mut m20, "IsPageTracked", Json::Bool(false));
    push_entry(&mut m20, "ShowDiplomaFragmentacaoIndice", Json::Bool(false));
    push_entry(&mut m20, "ShowDiplomaFragmentacaoTextoCompleto", Json::Bool(false));
    push_entry(&mut m20, "ShowDiplomaFragmentacaoMenuCabecalho", Json::Bool(false));
    push_entry(&mut m20, "ShowDiplomaAtoOriginalTexto", Json::Bool(true));
    push_entry(&mut m20, "ELI_HTML", str_value(""));
    push_entry(&mut m20, "IsShowConteudoRelacionado", Json::Bool(true));
    push_entry(&mut m20, "IsRefinarPesquisa", Json::Bool(true));
    push_entry(&mut m20, "IsToHideElements", Json::Bool(false));
    push_entry(&mut m20, "TextoFormatadoAux", str_value(""));
    push_entry(&mut m20, "FragmentoVersaoId", str_value("0"));
    push_entry(&mut m20, "IsPrint", Json::Bool(false));
    push_entry(&mut m20, "IsLoadingPDFAtoOriginal", Json::Bool(false));
    push_entry(&mut m20, "IsCopyTextLoading", Json::Bool(false));
    push_entry(&mut m20, "ShowScrollButtons", Json::Bool(true));
    push_entry(&mut m20, "KeyAux", str_value(""));
    push_entry(&mut m20, "Tipo", str_value(tipo_slug));
    push_entry(&mut m20, "_tipoInDataFetchStatus", number_value(1));
    push_entry(&mut m20, "Key", str_value(key));
    push_entry(&mut m20, "_keyInDataFetchStatus", number_value(1));
    push_entry(&mut m20, "ParteId", str_value("0"));
    push_entry(&mut m20, "_parteIdInDataFetchStatus", number_value(1));
    push_entry(&mut m20, "Emissor_Designacao", str_value(""));
    push_entry(&mut m20, "_emissor_DesignacaoInDataFetchStatus", number_value(1));
    assert(Json::view_entries(m20@) =~= seq![
        ("ParteIdAux"@, JsonView::Str("0"@)),
        ("DetalheConteudoElastic"@, es_template_spec()),
        ("IsRended"@, JsonView::Bool(false)),
        ("DiarioRepId"@, JsonView::Str("0"@)),
        ("DipLegisId"@, JsonView::Str(conteudo_id@)),
        ("DipDGOId"@, JsonView::Str("0"@)),
        ("DipRegTrabId"@, JsonView::Str("0"@)),
        ("DipLegacorId"@, JsonView::Str("0"@)),
        ("DipDGAPId"@, JsonView::Str("0"@)),
        ("ActSocId"@, JsonView::Str("0"@)),
        ("AcSTADipId"@, JsonView::Str("0"@)),
        ("ContPubId"@, JsonView::Str("0"@)),
        ("DiplExtId"@, JsonView::Str("0"@)),
        ("ConteudoId"@, JsonView::Str(conteudo_id@)),
        ("Pesquisa"@, JsonView::Str(""@)),
        ("Comes1"@, JsonView::Str("Pesquisa"@)),
        ("Numero"@, JsonView::Str(numero_slug@)),
        ("Year"@, JsonView::Number(decimal(year as nat))),
        ("length"@, JsonView::Number(decimal(0))),
        ("ShowResumoPT"@, JsonView::Bool(false)),
        ("HasJurisprudenciaAssociadaVar"@, JsonView::Bool(false)),
        ("IsPageTracked"@, JsonView::Bool(false)),
        ("ShowDiplomaFragmentacaoIndice"@, JsonView::Bool(false)),
        ("ShowDiplomaFragmentacaoTextoCompleto"@, JsonView::Bool(false)),
        ("ShowDiplomaFragmentacaoMenuCabecalho"@, JsonView::Bool(false)),
        ("ShowDiplomaAtoOriginalTexto"@, JsonView::Bool(true)),
        ("ELI_HTML"@, JsonView::Str(""@)),
        ("IsShowConteudoRelacionado"@, JsonView::Bool(true)),
        ("IsRefinarPesquisa"@, JsonView::Bool(true)),
        ("IsToHideElements"@, JsonView::Bool(false)),
        ("TextoFormatadoAux"@, JsonView::Str(""@)),
        ("FragmentoVersaoId"@, JsonView::Str("0"@)),
        ("IsPrint"@, JsonView::Bool(false)),
        ("IsLoadingPDFAtoOriginal"@, JsonView::Bool(false)),
        ("IsCopyTextLoading"@, JsonView::Bool(false)),
        ("ShowScrollButtons"@, JsonView::Bool(true)),
        ("KeyAux"@, JsonView::Str(""@)),
        ("Tipo"@, JsonView::Str(tipo_slug@)),
        ("_tipoInDataFetchStatus"@, JsonView::Number(decimal(1))),
        ("Key"@, JsonView::Str(key@)),
        ("_keyInDataFetchStatus"@, JsonView::Number(decimal(1))),
        ("ParteId"@, JsonView::Str("0"@)),
        ("_parteIdInDataFetchStatus"@, JsonView::Number(decimal(1))),
        ("Emissor_Designacao"@, JsonView::Str(""@)),
        ("_emissor_DesignacaoInDataFetchStatus"@, JsonView::Number(decimal(1))),
    ]);
    Json::Object(m20)
}

/// The client variables of the detail request.
pub open spec fn client_variables_spec(today: Seq<char>, now: Seq<char>, guid: Seq<char>) -> JsonView {
    JsonView::Object(
        seq![
            ("NewUser"@, JsonView::Str("https://diariodarepublica.pt/dr/utilizador/registar"@)),
            ("PesquisaAvancada"@, JsonView::Str("https://diariodarepublica.pt/dr/pesquisa-avancada"@)),
            ("Login"@, JsonView::Str("https://diariodarepublica.pt/dr/utilizador/entrar"@)),
            ("Data"@, JsonView::Str(today)),
            ("DicionarioJuridicoId"@, JsonView::Str("0"@)),
            ("FullHTMLURL_EN"@, JsonView::Str("https://diariodarepublica.pt/dr/en"@)),
            ("StartIndex"@, JsonView::Number(decimal(0))),
            ("DiarioRepublicaId"@, JsonView::Str(""@)),
            ("Serie"@, JsonView::Bool(true)),
            ("DiplomaConteudoId"@, JsonView::Str(""@)),
            ("CookiePath"@, JsonView::Str("/dr/"@)),
            ("Session_GUID"@, JsonView::Str(guid)),
            ("DateTime"@, JsonView::Str(now)),
            ("FullHTMLURL"@, JsonView::Str("https://diariodarepublica.pt/dr/home"@)),
            ("TipoDeUtilizador"@, JsonView::Str(""@)),
            ("GUID"@, JsonView::Str(""@)),
        ],
    )
}

/// The client variables of the detail request: the links of the site, the date `today`,
/// the timestamp `now` and the session GUID `guid`.
pub fn build_client_variables(today: &str, now: &str, guid: &str) -> (r: Json)
    ensures
        r@ == client_variables_spec(today@, now@, guid@),
{
    let mut m21: Vec<(String, Json)> = Vec::new();
    push_entry(&mut m21, "NewUser", str_value("https://diariodarepublica.pt/dr/utilizador/registar"));
    push_entry(&mut m21, "PesquisaAvancada", str_value("https://diariodarepublica.pt/dr/pesquisa-avancada"));
    push_entry(&mut m21, "Login", str_value("https://diariodarepublica.pt/dr/utilizador/entrar"));
    push_entry(&mut m21, "Data", str_value(today));
    push_entry(&mut m21, "DicionarioJuridicoId", str_value("0"));
    push_entry(&mut m21, "FullHTMLURL_EN", str_value("https://diariodarepublica.pt/dr/en"));
    push_entry(&mut m21, "StartIndex", number_value(0));
    push_entry(&mut m21, "DiarioRepublicaId", str_value(""));
    push_entry(&mut m21, "Serie", Json::Bool(true));
    push_entry(&mut m21, "DiplomaConteudoId", str_value(""));
    push_entry(&mut m21, "CookiePath", str_value("/dr/"));
    push_entry(&mut m21, "Session_GUID", str_value(guid));
    push_entry(&mut m21, "DateTime", str_value(now));
    push_entry(&mut m21, "FullHTMLURL", str_value("https://diariodarepublica.pt/dr/home"));
    push_entry(&mut m21, "TipoDeUtilizador", str_value(""));
    push_entry(&mut m21, "GUID", str_value(""));
    assert(Json::view_entries(m21@) =~= seq![
        ("NewUser"@, JsonView::Str("https://diariodarepublica.pt/dr/utilizador/registar"@)),
        ("PesquisaAvancada"@, JsonView::Str("https://diariodarepublica.pt/dr/pesquisa-avancada"@)),
        ("Login"@, JsonView::Str("https://diariodarepublica.pt/dr/utilizador/entrar"@)),
        ("Data"@, JsonView::Str(today@)),
        ("DicionarioJuridicoId"@, JsonView::Str("0"@)),
        ("FullHTMLURL_EN"@, JsonView::Str("https://diariodarepublica.pt/dr/en"@)),
        ("StartIndex"@, JsonView::Number(decimal(0))),
        ("DiarioRepublicaId"@, JsonView::Str(""@)),
        ("Serie"@, JsonView::Bool(true)),
        ("DiplomaConteudoId"@, JsonView::Str(""@)),
        ("CookiePath"@, JsonView::Str("/dr/"@)),
        ("Session_GUID"@, JsonView::Str(guid@)),
        ("DateTime"@, JsonView::Str(now@)),
        ("FullHTMLURL"@, JsonView::Str("https://diariodarepublica.pt/dr/home"@)),
        ("TipoDeUtilizador"@, JsonView::Str(""@)),
        ("GUID"@, JsonView::Str(""@)),
    ]);
    Json::Object(m21)
}


/// The body of the detail request for the act `conteudo_id`, of type `tipo` and number
/// `numero` (`year` where `numero` gives no year), sent on `today` at `now` in the session
/// `guid`.
pub open spec fn detail_body_spec(
    module_version: Seq<char>,
    conteudo_id: Seq<char>,
    tipo: Seq<char>,
    numero: Seq<char>,
    year: u32,
    today: Seq<char>,
    now: Seq<char>,
    guid: Seq<char>,
) -> JsonView {
    let slug = slug_and_year(numero, year).0;
    let derived_year = slug_and_year(numero, year).1;
    let key = request_key(numero, year, conteudo_id);
    JsonView::Object(
        seq![
            ("versionInfo"@, JsonView::Object(
                seq![
                    ("moduleVersion"@, JsonView::Str(module_version)),
                    ("apiVersion"@, JsonView::Str(DETAIL_API_VERSION@)),
                ],
            )),
            ("viewName"@, JsonView::Str("Legislacao_Conteudos.Conteudo_Detalhe"@)),
            ("screenData"@, JsonView::Object(
                seq![
                    ("variables"@, screen_variables_spec(
                        conteudo_id,
                        slug,
                        derived_year,
                        tipo_slug_spec(tipo),
                        key,
                    )),
                ],
            )),
            ("clientVariables"@, client_variables_spec(today, now, guid)),
        ],
    )
}

/// The body of the detail request, with the date `today`, the timestamp `now` and the
/// session GUID `guid` given.
pub fn build_detail_body_at(
    module_version: &str,
    conteudo_id: &str,
    tipo: &str,
    numero: &str,
    year: u32,
    today: &str,
    now: &str,
    guid: &str,
) -> (r: Json)
    ensures
        r@ == detail_body_spec(
            module_version@,
            conteudo_id@,
            tipo@,
            numero@,
            year,
            today@,
            now@,
            guid@,
        ),
{
    let (numero_slug, derived_year) = derive_slug_and_year(numero, year);
    let t_slug = tipo_slug(tipo);
    let mut key = String::new();
    push_detail_key(&mut key, numero_slug.as_str(), derived_year, conteudo_id);
    let mut version_info: Vec<(String, Json)> = Vec::new();
    push_entry(&mut version_info, "moduleVersion", str_value(module_version));
    push_entry(&mut version_info, "apiVersion", str_value(DETAIL_API_VERSION));
    let variables = build_screen_variables(
        conteudo_id,
        numero_slug.as_str(),
        derived_year,
        t_slug.as_str(),
        key.as_str(),
    );
    let mut screen_data: Vec<(String, Json)> = Vec::new();
    push_entry(&mut screen_data, "variables", variables);
    let client_variables = build_client_variables(today, now, guid);
    let mut body: Vec<(String, Json)> = Vec::new();
    push_entry(&mut body, "versionInfo", Json::Object(version_info));
    push_entry(&mut body, "viewName", str_value("Legislacao_Conteudos.Conteudo_Detalhe"));
    push_entry(&mut body, "screenData", Json::Object(screen_data));
    push_entry(&mut body, "clientVariables", client_variables);
    proof {
        let s = slug_and_year(numero@, year);
        assert(key@ =~= detail_key(s.0, s.1, conteudo_id@));
        assert(Json::view_entries(version_info@) =~= seq![
            ("moduleVersion"@, JsonView::Str(module_version@)),
            ("apiVersion"@, JsonView::Str(DETAIL_API_VERSION@)),
        ]);
        assert(Json::view_entries(screen_data@) =~= seq![("variables"@, variables@)]);
        assert(Json::view_entries(body@) =~= seq![
            ("versionInfo"@, Json::Object(version_info)@),
            ("viewName"@, JsonView::Str("Legislacao_Conteudos.Conteudo_Detalhe"@)),
            ("screenData"@, Json::Object(screen_data)@),
            ("clientVariables"@, client_variables@),
        ]);
    }
    Json::Object(body)
}

/// Whether `c` is a lowercase hexadecimal digit.
pub open spec fn is_lower_hex(c: char) -> bool {
    ('0' <= c && c <= '9') || ('a' <= c && c <= 'f')
}

/// Whether `t` is a version-4 UUID in hyphenated lowercase form: 36 characters, dashes at 8,
/// 13, 18 and 23, lowercase hexadecimal digits elsewhere, the version `4` at 14 and the
/// RFC 4122 variant (`8`, `9`, `a` or `b`) at 19.
pub open spec fn is_v4_uuid_text(t: Seq<char>) -> bool {
    &&& t.len() == 36
    &&& forall|i: int|
        0 <= i < 36 ==> if i == 8 || i == 13 || i == 18 || i == 23 {
            t[i] == '-'
        } else {
            is_lower_hex(#[trigger] t[i])
        }
    &&& t[14] == '4'
    &&& (t[19] == '8' || t[19] == '9' || t[19] == 'a' || t[19] == 'b')
}

/// Calls `chrono::Local::now()` and writes its date as `"%Y-%m-%d"`. Which date depends on
/// the clock and on the machine's time zone; claimed is only that the text is chrono's
/// `%Y-%m-%d` form of a valid date. No argument can make it panic, but the environment can:
/// chrono panics on a system clock before 1970 and on time-zone data that it cannot read.
#[verifier::external_body]
fn local_today() -> (r: String)
    ensures
        is_date_text(r@),
{
    chrono::Local::now().date_naive().format("%Y-%m-%d").to_string()
}

/// Calls `chrono::Local::now()` and writes it as `"%Y-%m-%dT%H:%M:%S%.3f%:z"`. Which instant
/// depends on the clock and on the machine's time zone; claimed is only the form of the text:
/// a valid date, `T`, the time of day to the millisecond and the offset `±hh:mm` (chrono rounds
/// the offset to whole minutes). No argument can make it panic, but the environment can: chrono
/// panics on a system clock before 1970 and on time-zone data that it cannot read.
#[verifier::external_body]
fn local_timestamp() -> (r: String)
    ensures
        is_timestamp_text(r@),
{
    chrono::Local::now().format("%Y-%m-%dT%H:%M:%S%.3f%:z").to_string()
}

/// Calls `uuid::Uuid::new_v4()` and writes the UUID as text. The UUID is random; claimed is
/// only its form: a version-4 UUID, hyphenated, in lowercase. No argument can make it panic,
/// but the environment can: uuid panics when the system's random source fails.
#[verifier::external_body]
fn new_session_guid() -> (r: String)
    ensures
        is_v4_uuid_text(r@),
{
    uuid::Uuid::new_v4().to_string()
}

/// Build the body of the detail request, with today's date, the current time and a fresh
/// session GUID.
pub fn build_detail_body(
    module_version: &str,
    conteudo_id: &str,
    tipo: &str,
    numero: &str,
    year: u32,
) -> (r: Json)
    ensures
        exists|today: Seq<char>, now: Seq<char>, guid: Seq<char>|
            is_date_text(today) && is_timestamp_text(now) && is_v4_uuid_text(guid) && r@
                == detail_body_spec(
                module_version@,
                conteudo_id@,
                tipo@,
                numero@,
                year,
                today,
                now,
                guid,
            ),
{
    let today = local_today();
    let now = local_timestamp();
    let guid = new_session_guid();
    let r = build_detail_body_at(
        module_version,
        conteudo_id,
        tipo,
        numero,
        year,
        today.as_str(),
        now.as_str(),
        guid.as_str(),
    );
    assert(is_date_text(today@) && is_timestamp_text(now@) && is_v4_uuid_text(guid@) && r@
        == detail_body_spec(
        module_version@,
        conteudo_id@,
        tipo@,
        numero@,
        year,
        today@,
        now@,
        guid@,
    ));
    r
}

/// The screen variables that the arguments fill.
pub open spec fn screen_argument_keys() -> Set<Seq<char>> {
    set!["DipLegisId"@, "ConteudoId"@, "Numero"@, "Year"@, "Tipo"@, "Key"@]
}

/// Two sets of screen variables agree everywhere but under the keys that the arguments fill,
/// and under those keys they hold the arguments.
pub proof fn law_screen_variables_vary_only_in_arguments(
    conteudo_id: Seq<char>,
    numero_slug: Seq<char>,
    year: u32,
    tipo_slug: Seq<char>,
    key: Seq<char>,
    conteudo_id2: Seq<char>,
    numero_slug2: Seq<char>,
    year2: u32,
    tipo_slug2: Seq<char>,
    key2: Seq<char>,
)
    ensures
        agree_except(
            screen_variables_spec(conteudo_id, numero_slug, year, tipo_slug, key),
            screen_variables_spec(conteudo_id2, numero_slug2, year2, tipo_slug2, key2),
            screen_argument_keys(),
        ),
        screen_variables_spec(conteudo_id, numero_slug, year, tipo_slug, key).get("DipLegisId"@) == Some(JsonView::Str(conteudo_id)),
        screen_variables_spec(conteudo_id, numero_slug, year, tipo_slug, key).get("ConteudoId"@) == Some(JsonView::Str(conteudo_id)),
        screen_variables_spec(conteudo_id, numero_slug, year, tipo_slug, key).get("Numero"@) == Some(JsonView::Str(numero_slug)),
        screen_variables_spec(conteudo_id, numero_slug, year, tipo_slug, key).get("Year"@) == Some(JsonView::Number(decimal(year as nat))),
        screen_variables_spec(conteudo_id, numero_slug, year, tipo_slug, key).get("Tipo"@) == Some(JsonView::Str(tipo_slug)),
        screen_variables_spec(conteudo_id, numero_slug, year, tipo_slug, key).get("Key"@) == Some(JsonView::Str(key)),
{
    reveal_strlit("AcSTADipId");
    reveal_strlit("ActSocId");
    reveal_strlit("Comes1");
    reveal_strlit("ContPubId");
    reveal_strlit("ConteudoId");
    reveal_strlit("DetalheConteudoElastic");
    reveal_strlit("DiarioRepId");
    reveal_strlit("DipDGAPId");
    reveal_strlit("DipDGOId");
    reveal_strlit("DipLegacorId");
    reveal_strlit("DipLegisId");
    reveal_strlit("DipRegTrabId");
    reveal_strlit("DiplExtId");
    reveal_strlit("ELI_HTML");
    reveal_strlit("Emissor_Designacao");
    reveal_strlit("FragmentoVersaoId");
    reveal_strlit("HasJurisprudenciaAssociadaVar");
    reveal_strlit("IsCopyTextLoading");
    reveal_strlit("IsLoadingPDFAtoOriginal");
    reveal_strlit("IsPageTracked");
    reveal_strlit("IsPrint");
    reveal_strlit("IsRefinarPesquisa");
    reveal_strlit("IsRended");
    reveal_strlit("IsShowConteudoRelacionado");
    reveal_strlit("IsToHideElements");
    reveal_strlit("Key");
    reveal_strlit("KeyAux");
    reveal_strlit("Numero");
    reveal_strlit("ParteId");
    reveal_strlit("ParteIdAux");
    reveal_strlit("Pesquisa");
    reveal_strlit("ShowDiplomaAtoOriginalTexto");
    reveal_strlit("ShowDiplomaFragmentacaoIndice");
    reveal_strlit("ShowDiplomaFragmentacaoMenuCabecalho");
    reveal_strlit("ShowDiplomaFragmentacaoTextoCompleto");
    reveal_strlit("ShowResumoPT");
    reveal_strlit("ShowScrollButtons");
    reveal_strlit("TextoFormatadoAux");
    reveal_strlit("Tipo");
    reveal_strlit("Year");
    reveal_strlit("_emissor_DesignacaoInDataFetchStatus");
    reveal_strlit("_keyInDataFetchStatus");
    reveal_strlit("_parteIdInDataFetchStatus");
    reveal_strlit("_tipoInDataFetchStatus");
    reveal_strlit("length");
    if let JsonView::Object(e) = screen_variables_spec(conteudo_id, numero_slug, year, tipo_slug, key) {
        assert(e[0].0[0] != "DipLegisId"@[0]);
        assert(e[1].0.len() != "DipLegisId"@.len());
        assert(e[2].0.len() != "DipLegisId"@.len());
        assert(e[3].0.len() != "DipLegisId"@.len());
        assert forall|j: int| 0 <= j < 4 implies #[trigger] e[j].0 != "DipLegisId"@ by {
            assert(j == 0 || j == 1 || j == 2 || j == 3);
        }
        lemma_entries_get_at(e, "DipLegisId"@, 4);
        assert(e[0].0[0] != "ConteudoId"@[0]);
        assert(e[1].0.len() != "ConteudoId"@.len());
        assert(e[2].0.len() != "ConteudoId"@.len());
        assert(e[3].0.len() != "ConteudoId"@.len());
        assert(e[4].0[0] != "ConteudoId"@[0]);
        assert(e[5].0.len() != "ConteudoId"@.len());
        assert(e[6].0.len() != "ConteudoId"@.len());
        assert(e[7].0.len() != "ConteudoId"@.len());
        assert(e[8].0.len() != "ConteudoId"@.len());
        assert(e[9].0.len() != "ConteudoId"@.len());
        assert(e[10].0[0] != "ConteudoId"@[0]);
        assert(e[11].0.len() != "ConteudoId"@.len());
        assert(e[12].0.len() != "ConteudoId"@.len());
        assert forall|j: int| 0 <= j < 13 implies #[trigger] e[j].0 != "ConteudoId"@ by {
            assert(j == 0 || j == 1 || j == 2 || j == 3 || j == 4 || j == 5 || j == 6 || j == 7 || j == 8 || j == 9 || j == 10 || j == 11 || j == 12);
        }
        lemma_entries_get_at(e, "ConteudoId"@, 13);
        assert(e[0].0.len() != "Numero"@.len());
        assert(e[1].0.len() != "Numero"@.len());
        assert(e[2].0.len() != "Numero"@.len());
        assert(e[3].0.len() != "Numero"@.len());
        assert(e[4].0.len() != "Numero"@.len());
        assert(e[5].0.len() != "Numero"@.len());
        assert(e[6].0.len() != "Numero"@.len());
        assert(e[7].0.len() != "Numero"@.len());
        assert(e[8].0.len() != "Numero"@.len());
        assert(e[9].0.len() != "Numero"@.len());
        assert(e[10].0.len() != "Numero"@.len());
        assert(e[11].0.len() != "Numero"@.len());
        assert(e[12].0.len() != "Numero"@.len());
        assert(e[13].0.len() != "Numero"@.len());
        assert(e[14].0.len() != "Numero"@.len());
        assert(e[15].0[0] != "Numero"@[0]);
        assert forall|j: int| 0 <= j < 16 implies #[trigger] e[j].0 != "Numero"@ by {
            assert(j == 0 || j == 1 || j == 2 || j == 3 || j == 4 || j == 5 || j == 6 || j == 7 || j == 8 || j == 9 || j == 10 || j == 11 || j == 12 || j == 13 || j == 14 || j == 15);
        }
        lemma_entries_get_at(e, "Numero"@, 16);
        assert(e[0].0.len() != "Year"@.len());
        assert(e[1].0.len() != "Year"@.len());
        assert(e[2].0.len() != "Year"@.len());
        assert(e[3].0.len() != "Year"@.len());
        assert(e[4].0.len() != "Year"@.len());
        assert(e[5].0.len() != "Year"@.len());
        assert(e[6].0.len() != "Year"@.len());
        assert(e[7].0.len() != "Year"@.len());
        assert(e[8].0.len() != "Year"@.len());
        assert(e[9].0.len() != "Year"@.len());
        assert(e[10].0.len() != "Year"@.len());
        assert(e[11].0.len() != "Year"@.len());
        assert(e[12].0.len() != "Year"@.len());
        assert(e[13].0.len() != "Year"@.len());
        assert(e[14].0.len() != "Year"@.len());
        assert(e[15].0.len() != "Year"@.len());
        assert(e[16].0.len() != "Year"@.len());
        assert forall|j: int| 0 <= j < 17 implies #[trigger] e[j].0 != "Year"@ by {
            assert(j == 0 || j == 1 || j == 2 || j == 3 || j == 4 || j == 5 || j == 6 || j == 7 || j == 8 || j == 9 || j == 10 || j == 11 || j == 12 || j == 13 || j == 14 || j == 15 || j == 16);
        }
        lemma_entries_get_at(e, "Year"@, 17);
        assert(e[0].0.len() != "Tipo"@.len());
        assert(e[1].0.len() != "Tipo"@.len());
        assert(e[2].0.len() != "Tipo"@.len());
        assert(e[3].0.len() != "Tipo"@.len());
        assert(e[4].0.len() != "Tipo"@.len());
        assert(e[5].0.len() != "Tipo"@.len());
        assert(e[6].0.len() != "Tipo"@.len());
        assert(e[7].0.len() != "Tipo"@.len());
        assert(e[8].0.len() != "Tipo"@.len());
        assert(e[9].0.len() != "Tipo"@.len());
        assert(e[10].0.len() != "Tipo"@.len());
        assert(e[11].0.len() != "Tipo"@.len());
        assert(e[12].0.len() != "Tipo"@.len());
        assert(e[13].0.len() != "Tipo"@.len());
        assert(e[14].0.len() != "Tipo"@.len());
        assert(e[15].0.len() != "Tipo"@.len());
        assert(e[16].0.len() != "Tipo"@.len());
        assert(e[17].0[0] != "Tipo"@[0]);
        assert(e[18].0.len() != "Tipo"@.len());
        assert(e[19].0.len() != "Tipo"@.len());
        assert(e[20].0.len() != "Tipo"@.len());
        assert(e[21].0.len() != "Tipo"@.len());
        assert(e[22].0.len() != "Tipo"@.len());
        assert(e[23].0.len() != "Tipo"@.len());
        assert(e[24].0.len() != "Tipo"@.len());
        assert(e[25].0.len() != "Tipo"@.len());
        assert(e[26].0.len() != "Tipo"@.len());
        assert(e[27].0.len() != "Tipo"@.len());
        assert(e[28].0.len() != "Tipo"@.len());
        assert(e[29].0.len() != "Tipo"@.len());
        assert(e[30].0.len() != "Tipo"@.len());
        assert(e[31].0.len() != "Tipo"@.len());
        assert(e[32].0.len() != "Tipo"@.len());
        assert(e[33].0.len() != "Tipo"@.len());
        assert(e[34].0.len() != "Tipo"@.len());
        assert(e[35].0.len() != "Tipo"@.len());
        assert(e[36].0.len() != "Tipo"@.len());
        assert forall|j: int| 0 <= j < 37 implies #[trigger] e[j].0 != "Tipo"@ by {
            assert(j == 0 || j == 1 || j == 2 || j == 3 || j == 4 || j == 5 || j == 6 || j == 7 || j == 8 || j == 9 || j == 10 || j == 11 || j == 12 || j == 13 || j == 14 || j == 15 || j == 16 || j == 17 || j == 18 || j == 19 || j == 20 || j == 21 || j == 22 || j == 23 || j == 24 || j == 25 || j == 26 || j == 27 || j == 28 || j == 29 || j == 30 || j == 31 || j == 32 || j == 33 || j == 34 || j == 35 || j == 36);
        }
        lemma_entries_get_at(e, "Tipo"@, 37);
        assert(e[0].0.len() != "Key"@.len());
        assert(e[1].0.len() != "Key"@.len());
        assert(e[2].0.len() != "Key"@.len());
        assert(e[3].0.len() != "Key"@.len());
        assert(e[4].0.len() != "Key"@.len());
        assert(e[5].0.len() != "Key"@.len());
        assert(e[6].0.len() != "Key"@.len());
        assert(e[7].0.len() != "Key"@.len());
        assert(e[8].0.len() != "Key"@.len());
        assert(e[9].0.len() != "Key"@.len());
        assert(e[10].0.len() != "Key"@.len());
        assert(e[11].0.len() != "Key"@.len());
        assert(e[12].0.len() != "Key"@.len());
        assert(e[13].0.len() != "Key"@.len());
        assert(e[14].0.len() != "Key"@.len());
        assert(e[15].0.len() != "Key"@.len());
        assert(e[16].0.len() != "Key"@.len());
        assert(e[17].0.len() != "Key"@.len());
        assert(e[18].0.len() != "Key"@.len());
        assert(e[19].0.len() != "Key"@.len());
        assert(e[20].0.len() != "Key"@.len());
        assert(e[21].0.len() != "Key"@.len());
        assert(e[22].0.len() != "Key"@.len());
        assert(e[23].0.len() != "Key"@.len());
        assert(e[24].0.len() != "Key"@.len());
        assert(e[25].0.len() != "Key"@.len());
        assert(e[26].0.len() != "Key"@.len());
        assert(e[27].0.len() != "Key"@.len());
        assert(e[28].0.len() != "Key"@.len());
        assert(e[29].0.len() != "Key"@.len());
        assert(e[30].0.len() != "Key"@.len());
        assert(e[31].0.len() != "Key"@.len());
        assert(e[32].0.len() != "Key"@.len());
        assert(e[33].0.len() != "Key"@.len());
        assert(e[34].0.len() != "Key"@.len());
        assert(e[35].0.len() != "Key"@.len());
        assert(e[36].0.len() != "Key"@.len());
        assert(e[37].0.len() != "Key"@.len());
        assert(e[38].0.len() != "Key"@.len());
        assert forall|j: int| 0 <= j < 39 implies #[trigger] e[j].0 != "Key"@ by {
            assert(j == 0 || j == 1 || j == 2 || j == 3 || j == 4 || j == 5 || j == 6 || j == 7 || j == 8 || j == 9 || j == 10 || j == 11 || j == 12 || j == 13 || j == 14 || j == 15 || j == 16 || j == 17 || j == 18 || j == 19 || j == 20 || j == 21 || j == 22 || j == 23 || j == 24 || j == 25 || j == 26 || j == 27 || j == 28 || j == 29 || j == 30 || j == 31 || j == 32 || j == 33 || j == 34 || j == 35 || j == 36 || j == 37 || j == 38);
        }
        lemma_entries_get_at(e, "Key"@, 39);
    }
}

/// The client variables that the clock and the random source fill.
pub open spec fn clock_keys() -> Set<Seq<char>> {
    set!["Data"@, "DateTime"@, "Session_GUID"@]
}

/// Two sets of client variables agree everywhere but under the date, the timestamp and the
/// session GUID, and under those keys they hold them.
pub proof fn law_client_variables_vary_only_in_clock(
    today: Seq<char>,
    now: Seq<char>,
    guid: Seq<char>,
    today2: Seq<char>,
    now2: Seq<char>,
    guid2: Seq<char>,
)
    ensures
        agree_except(
            client_variables_spec(today, now, guid),
            client_variables_spec(today2, now2, guid2),
            clock_keys(),
        ),
        client_variables_spec(today, now, guid).get("Data"@) == Some(JsonView::Str(today)),
        client_variables_spec(today, now, guid).get("DateTime"@) == Some(JsonView::Str(now)),
        client_variables_spec(today, now, guid).get("Session_GUID"@) == Some(JsonView::Str(guid)),
{
    reveal_strlit("CookiePath");
    reveal_strlit("Data");
    reveal_strlit("DateTime");
    reveal_strlit("DiarioRepublicaId");
    reveal_strlit("DicionarioJuridicoId");
    reveal_strlit("DiplomaConteudoId");
    reveal_strlit("FullHTMLURL");
    reveal_strlit("FullHTMLURL_EN");
    reveal_strlit("GUID");
    reveal_strlit("Login");
    reveal_strlit("NewUser");
    reveal_strlit("PesquisaAvancada");
    reveal_strlit("Serie");
    reveal_strlit("Session_GUID");
    reveal_strlit("StartIndex");
    reveal_strlit("TipoDeUtilizador");
    if let JsonView::Object(e) = client_variables_spec(today, now, guid) {
        assert(e[0].0.len() != "Data"@.len());
        assert(e[1].0.len() != "Data"@.len());
        assert(e[2].0.len() != "Data"@.len());
        assert forall|j: int| 0 <= j < 3 implies #[trigger] e[j].0 != "Data"@ by {
            assert(j == 0 || j == 1 || j == 2);
        }
        lemma_entries_get_at(e, "Data"@, 3);
        assert(e[0].0.len() != "DateTime"@.len());
        assert(e[1].0.len() != "DateTime"@.len());
        assert(e[2].0.len() != "DateTime"@.len());
        assert(e[3].0.len() != "DateTime"@.len());
        assert(e[4].0.len() != "DateTime"@.len());
        assert(e[5].0.len() != "DateTime"@.len());
        assert(e[6].0.len() != "DateTime"@.len());
        assert(e[7].0.len() != "DateTime"@.len());
        assert(e[8].0.len() != "DateTime"@.len());
        assert(e[9].0.len() != "DateTime"@.len());
        assert(e[10].0.len() != "DateTime"@.len());
        assert(e[11].0.len() != "DateTime"@.len());
        assert forall|j: int| 0 <= j < 12 implies #[trigger] e[j].0 != "DateTime"@ by {
            assert(j == 0 || j == 1 || j == 2 || j == 3 || j == 4 || j == 5 || j == 6 || j == 7 || j == 8 || j == 9 || j == 10 || j == 11);
        }
        lemma_entries_get_at(e, "DateTime"@, 12);
        assert(e[0].0.len() != "Session_GUID"@.len());
        assert(e[1].0.len() != "Session_GUID"@.len());
        assert(e[2].0.len() != "Session_GUID"@.len());
        assert(e[3].0.len() != "Session_GUID"@.len());
        assert(e[4].0.len() != "Session_GUID"@.len());
        assert(e[5].0.len() != "Session_GUID"@.len());
        assert(e[6].0.len() != "Session_GUID"@.len());
        assert(e[7].0.len() != "Session_GUID"@.len());
        assert(e[8].0.len() != "Session_GUID"@.len());
        assert(e[9].0.len() != "Session_GUID"@.len());
        assert(e[10].0.len() != "Session_GUID"@.len());
        assert forall|j: int| 0 <= j < 11 implies #[trigger] e[j].0 != "Session_GUID"@ by {
            assert(j == 0 || j == 1 || j == 2 || j == 3 || j == 4 || j == 5 || j == 6 || j == 7 || j == 8 || j == 9 || j == 10);
        }
        lemma_entries_get_at(e, "Session_GUID"@, 11);
    }
}

/// Two detail requests for the same act agree everywhere but under the client variables'
/// date, timestamp and session GUID: the only parts that the clock and the random source fill.
pub proof fn law_detail_body_varies_only_in_clock(
    module_version: Seq<char>,
    conteudo_id: Seq<char>,
    tipo: Seq<char>,
    numero: Seq<char>,
    year: u32,
    today: Seq<char>,
    now: Seq<char>,
    guid: Seq<char>,
    today2: Seq<char>,
    now2: Seq<char>,
    guid2: Seq<char>,
)
    ensures
        agree_except(
            detail_body_spec(module_version, conteudo_id, tipo, numero, year, today, now, guid),
            detail_body_spec(module_version, conteudo_id, tipo, numero, year, today2, now2, guid2),
            set!["clientVariables"@],
        ),
        detail_body_spec(module_version, conteudo_id, tipo, numero, year, today, now, guid).get(
            "clientVariables"@,
        ) == Some(client_variables_spec(today, now, guid)),
        detail_body_spec(module_version, conteudo_id, tipo, numero, year, today2, now2, guid2).get(
            "clientVariables"@,
        ) == Some(client_variables_spec(today2, now2, guid2)),
        agree_except(
            client_variables_spec(today, now, guid),
            client_variables_spec(today2, now2, guid2),
            clock_keys(),
        ),
{
    reveal_strlit("versionInfo");
    reveal_strlit("viewName");
    reveal_strlit("screenData");
    reveal_strlit("clientVariables");
    law_client_variables_vary_only_in_clock(today, now, guid, today2, now2, guid2);
    if let JsonView::Object(e) = detail_body_spec(
        module_version,
        conteudo_id,
        tipo,
        numero,
        year,
        today,
        now,
        guid,
    ) {
        assert(e[0].0.len() != "clientVariables"@.len());
        assert(e[1].0.len() != "clientVariables"@.len());
        assert(e[2].0.len() != "clientVariables"@.len());
        assert forall|j: int| 0 <= j < 3 implies #[trigger] e[j].0 != "clientVariables"@ by {
            assert(j == 0 || j == 1 || j == 2);
        }
        lemma_entries_get_at(e, "clientVariables"@, 3);
    }
    if let JsonView::Object(e) = detail_body_spec(
        module_version,
        conteudo_id,
        tipo,
        numero,
        year,
        today2,
        now2,
        guid2,
    ) {
        assert(e[0].0.len() != "clientVariables"@.len());
        assert(e[1].0.len() != "clientVariables"@.len());
        assert(e[2].0.len() != "clientVariables"@.len());
        assert forall|j: int| 0 <= j < 3 implies #[trigger] e[j].0 != "clientVariables"@ by {
            assert(j == 0 || j == 1 || j == 2);
        }
        lemma_entries_get_at(e, "clientVariables"@, 3);
    }
}

/// The detail request carries the act it asks for: its screen variables hold the act's id
/// (under `DipLegisId` and `ConteudoId`), the number's slug and year (the second piece of the
/// number read as a year, else `year`), the whole tipo lowercased, and the key
/// `"{slug}-{year}-{id}"`; its client variables hold the date, timestamp and GUID given; its
/// version info holds the module version.
pub proof fn law_detail_body_carries_act(
    module_version: Seq<char>,
    conteudo_id: Seq<char>,
    tipo: Seq<char>,
    numero: Seq<char>,
    year: u32,
    today: Seq<char>,
    now: Seq<char>,
    guid: Seq<char>,
)
    ensures
        ({
            let b = detail_body_spec(module_version, conteudo_id, tipo, numero, year, today, now, guid);
            let vars = opt_get(opt_get(b.get("screenData"@), "variables"@), "Tipo"@);
            let slug = lowercase(first_segment(numero));
            let y = slug_and_year(numero, year).1;
            &&& opt_get(opt_get(b.get("screenData"@), "variables"@), "Tipo"@) == Some(
                JsonView::Str(lowercase(tipo)),
            )
            &&& opt_get(opt_get(b.get("screenData"@), "variables"@), "Numero"@) == Some(
                JsonView::Str(slug),
            )
            &&& opt_get(opt_get(b.get("screenData"@), "variables"@), "Year"@) == Some(
                JsonView::Number(decimal(y as nat)),
            )
            &&& opt_get(opt_get(b.get("screenData"@), "variables"@), "Key"@) == Some(
                JsonView::Str(slug + "-"@ + decimal(y as nat) + "-"@ + conteudo_id),
            )
            &&& opt_get(opt_get(b.get("screenData"@), "variables"@), "DipLegisId"@) == Some(
                JsonView::Str(conteudo_id),
            )
            &&& opt_get(opt_get(b.get("screenData"@), "variables"@), "ConteudoId"@) == Some(
                JsonView::Str(conteudo_id),
            )
            &&& opt_get(b.get("clientVariables"@), "Data"@) == Some(JsonView::Str(today))
            &&& opt_get(b.get("clientVariables"@), "DateTime"@) == Some(JsonView::Str(now))
            &&& opt_get(b.get("clientVariables"@), "Session_GUID"@) == Some(JsonView::Str(guid))
            &&& opt_get(b.get("versionInfo"@), "moduleVersion"@) == Some(
                JsonView::Str(module_version),
            )
        }),
{
    let s = slug_and_year(numero, year);
    law_screen_variables_vary_only_in_arguments(
        conteudo_id,
        s.0,
        s.1,
        tipo_slug_spec(tipo),
        request_key(numero, year, conteudo_id),
        conteudo_id,
        s.0,
        s.1,
        tipo_slug_spec(tipo),
        request_key(numero, year, conteudo_id),
    );
    law_client_variables_vary_only_in_clock(today, now, guid, today, now, guid);
    law_detail_body_varies_only_in_clock(
        module_version,
        conteudo_id,
        tipo,
        numero,
        year,
        today,
        now,
        guid,
        today,
        now,
        guid,
    );
    reveal_strlit("versionInfo");
    reveal_strlit("viewName");
    reveal_strlit("screenData");
    reveal_strlit("moduleVersion");
    reveal_strlit("apiVersion");
    reveal_strlit("variables");
    let b = detail_body_spec(module_version, conteudo_id, tipo, numero, year, today, now, guid);
    if let JsonView::Object(e) = b {
        assert(e[0].0.len() != "screenData"@.len());
        assert(e[1].0.len() != "screenData"@.len());
        assert forall|j: int| 0 <= j < 2 implies #[trigger] e[j].0 != "screenData"@ by {
            assert(j == 0 || j == 1);
        }
        lemma_entries_get_at(e, "screenData"@, 2);
        assert forall|j: int| 0 <= j < 0 implies #[trigger] e[j].0 != "versionInfo"@ by {
        }
        lemma_entries_get_at(e, "versionInfo"@, 0);
        if let JsonView::Object(sd) = e[2].1 {
            assert forall|j: int| 0 <= j < 0 implies #[trigger] sd[j].0 != "variables"@ by {
            }
            lemma_entries_get_at(sd, "variables"@, 0);
        }
        if let JsonView::Object(vi) = e[0].1 {
            assert forall|j: int| 0 <= j < 0 implies #[trigger] vi[j].0 != "moduleVersion"@ by {
            }
            lemma_entries_get_at(vi, "moduleVersion"@, 0);
        }
    }
}

} // verus!
