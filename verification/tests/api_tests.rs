use scholar_pipeline::api::{
    citations_list, citing_list, citing_request, citing_rows, detail_page, index_request,
    references_list, search_page, search_request, search_result, table_rows,
    PaperBookmarkResponse, PaperCloneRequest, PaperCloneResponse,
};
use scholar_pipeline::semantic_scholar_api::critions::{CitingDaum, CitingRequest, CitingResponse};
use scholar_pipeline::semantic_scholar_api::data::{
    Author, ExternalIds, OpenAccessPdf, Paper, PaperDetail, S2FieldsOfStudy,
    SemanticScholarApiRequest, Tldr,
};
use scholar_pipeline::semantic_scholar_api::paper_fetch::{paper_detail_url, BulkRequest};
use scholar_pipeline::status::PdfFileStatus;
use scholar_pipeline::template::page_detail::CitingListRowTemplate;
use scholar_pipeline::template::table::{
    authors_line, id_table, show_ids, PaperDetailTemplateDetailPrint, TableRowTemplate,
};

fn author(name: &str) -> Author {
    Author { author_id: None, name: name.to_string() }
}

fn pair(key: &str, value: &str) -> (String, String) {
    (key.to_string(), value.to_string())
}

fn auto_keras() -> Paper {
    Paper {
        paper_id: Some("c27ad9346f384e828a4cd6dc8e7e724ea54bd1a2".to_string()),
        external_ids: Some(ExternalIds {
            doi: Some("10.1145/3292500.3330648".to_string()),
            ar_xiv: Some("1806.10282".to_string()),
            corpus_id: Some(49412142),
            ..ExternalIds::default()
        }),
        title: "Auto-Keras: An Efficient Neural Architecture Search System".to_string(),
        abstract_field: Some("Neural architecture search (NAS) ...".to_string()),
        venue: Some("KDD".to_string()),
        year: Some(2019),
        reference_count: Some(51),
        citation_count: Some(700),
        is_open_access: Some(true),
        authors: Some(vec![author("Haifeng Jin"), author("Qingquan Song"), author("Xia Hu")]),
        ..Paper::default()
    }
}

#[test]
fn row_of_a_paper() {
    let row = TableRowTemplate::from(auto_keras());
    assert_eq!(
        row,
        TableRowTemplate {
            paper_id: "c27ad9346f384e828a4cd6dc8e7e724ea54bd1a2".to_string(),
            external_id: "[\"10.1145/3292500.3330648\", \"\", \"\", \"1806.10282\", \"\", \"\"]".to_string(),
            title: "Auto-Keras: An Efficient Neural Architecture Search System".to_string(),
            authors: "Haifeng Jin, Qingquan Song, Xia Hu".to_string(),
            keywords: "".to_string(),
            abstract_content: "Neural architecture search (NAS) ...".to_string(),
            year: "2019".to_string(),
            venue: "KDD".to_string(),
            is_open_access: true,
            citation_count: 700,
            reference_count: 51,
        }
    );
}

#[test]
fn row_of_a_paper_that_lacks_everything() {
    let row = TableRowTemplate::from(Paper { title: "Untitled".to_string(), ..Paper::default() });
    assert_eq!(
        row,
        TableRowTemplate {
            paper_id: "".to_string(),
            external_id: "".to_string(),
            title: "Untitled".to_string(),
            authors: "".to_string(),
            keywords: "".to_string(),
            abstract_content: "".to_string(),
            year: "0".to_string(),
            venue: "".to_string(),
            is_open_access: false,
            citation_count: 0,
            reference_count: 0,
        }
    );
    let closed = TableRowTemplate::from(Paper { is_open_access: Some(false), ..Paper::default() });
    assert!(!closed.is_open_access);
}

#[test]
fn identifiers_are_listed_as_for_debugging() {
    assert_eq!(show_ids(None), "");
    assert_eq!(show_ids(Some(ExternalIds::default())), "[\"\", \"\", \"\", \"\", \"\", \"\"]");
    let ids = ExternalIds {
        doi: Some("a\"b".to_string()),
        pub_med: Some("1".to_string()),
        pub_med_central: Some("2".to_string()),
        ar_xiv: Some("3\\4".to_string()),
        dblp: Some("5\n".to_string()),
        mag: Some("6".to_string()),
        corpus_id: Some(7),
    };
    assert_eq!(show_ids(Some(ids)), "[\"a\\\"b\", \"1\", \"2\", \"3\\\\4\", \"5\\n\", \"6\"]");
}

#[test]
fn authors_on_one_line() {
    assert_eq!(authors_line(&[]), "");
    assert_eq!(authors_line(&[author("Ada")]), "Ada");
    assert_eq!(authors_line(&[author("Ada"), author("Grace")]), "Ada, Grace");
}

#[test]
fn rows_keep_the_order_of_the_papers() {
    let papers = vec![
        Paper { title: "first".to_string(), ..Paper::default() },
        auto_keras(),
        Paper { title: "third".to_string(), year: Some(-5), ..Paper::default() },
    ];
    let rows = table_rows(papers.clone());
    assert_eq!(rows.len(), 3);
    assert_eq!(rows[0].title, "first");
    assert_eq!(rows[1], TableRowTemplate::from(auto_keras()));
    assert_eq!(rows[2].year, "-5");
    let page = search_page(12, papers.clone());
    assert_eq!(page.total_count, 12);
    assert_eq!(page.rows, rows);
    let result = search_result("query=nas".to_string(), 3, papers);
    assert_eq!(result.query, "query=nas");
    assert_eq!(result.total_count, 3);
    assert_eq!(result.rows, rows);
    assert!(table_rows(vec![]).is_empty());
}

#[test]
fn row_of_a_citation() {
    let daum = CitingDaum {
        contexts: vec!["as shown in [3]".to_string()],
        intents: vec!["background".to_string()],
        is_influential: true,
        citing_paper: auto_keras(),
    };
    let row = CitingListRowTemplate::from(daum);
    assert_eq!(row.contexts, vec!["as shown in [3]".to_string()]);
    assert_eq!(row.intents, vec!["background".to_string()]);
    assert!(row.is_influential);
    assert_eq!(row.paper_id, "c27ad9346f384e828a4cd6dc8e7e724ea54bd1a2");
    assert_eq!(row.external_id, "[\"10.1145/3292500.3330648\", \"\", \"\", \"1806.10282\", \"\", \"\"]");
    assert_eq!(row.title, "Auto-Keras: An Efficient Neural Architecture Search System");
    assert_eq!(row.authors, "Haifeng Jin, Qingquan Song, Xia Hu");
    assert_eq!(row.keywords, "");
    assert_eq!(row.year, "2019");
    assert_eq!(row.venue, "KDD");
    assert!(row.is_open_access);
    assert_eq!(row.citation_count, 700);
    assert_eq!(row.reference_count, 51);
}

#[test]
fn table_of_citations() {
    let daum = |title: &str| CitingDaum {
        citing_paper: Paper { title: title.to_string(), authors: Some(vec![]), ..Paper::default() },
        ..CitingDaum::default()
    };
    let response = CitingResponse {
        offset: Some(0),
        next: Some(100),
        data: Some(vec![daum("a"), daum("b")]),
    };
    let list = references_list(response.clone());
    assert_eq!(list.table_id, "reference-accordion-collapse-body");
    let cited = citations_list(response);
    assert_eq!(cited.table_id, "citation-accordion-collapse-body");
    assert_eq!(cited.rows, list.rows);
    assert_eq!(list.offset, Some(0));
    assert_eq!(list.next, Some(100));
    assert_eq!(list.rows.len(), 2);
    assert_eq!(list.rows[0].title, "a");
    assert_eq!(list.rows[1].title, "b");
    assert_eq!(list.rows[1].authors, "");
    assert_eq!(citing_rows(vec![daum("c")])[0].title, "c");
    let empty = citing_list("t", CitingResponse { offset: None, next: None, data: Some(vec![]) });
    assert!(empty.rows.is_empty());
}

#[test]
fn page_of_a_paper() {
    let detail = PaperDetail {
        paper_id: "c27ad9346f384e828a4cd6dc8e7e724ea54bd1a2".to_string(),
        corpus_id: Some(49412142),
        external_ids: Some(ExternalIds {
            doi: Some("10.1145/3292500.3330648".to_string()),
            dblp: Some("conf/kdd/JinSH19".to_string()),
            ar_xiv: Some("1806.10282".to_string()),
            corpus_id: Some(49412142),
            mag: Some("2964197269".to_string()),
            ..ExternalIds::default()
        }),
        url: Some("https://www.semanticscholar.org/paper/c27a".to_string()),
        title: "Auto-Keras".to_string(),
        year: 2019,
        reference_count: 51,
        citation_count: 700,
        influential_citation_count: 60,
        is_open_access: true,
        open_access_pdf: Some(OpenAccessPdf {
            url: Some("https://arxiv.org/pdf/1806.10282".to_string()),
            status: Some("GREEN".to_string()),
        }),
        fields_of_study: vec!["Computer Science".to_string()],
        s2fields_of_study: Some(vec![S2FieldsOfStudy {
            category: Some("Computer Science".to_string()),
            source: Some("external".to_string()),
        }]),
        authors: vec![author("Haifeng Jin")],
        tldr: Some(Tldr { model: "tldr@v2".to_string(), text: "A NAS system.".to_string() }),
        ..PaperDetail::default()
    };
    let page = detail_page("c27ad9346f384e828a4cd6dc8e7e724ea54bd1a2", detail.clone());
    assert_eq!(page.paper_id, "c27ad9346f384e828a4cd6dc8e7e724ea54bd1a2");
    assert!(!page.fetched);
    let print = page.paper_detail;
    assert_eq!(print, PaperDetailTemplateDetailPrint::from(detail));
    assert_eq!(print.corpus_id, 49412142);
    assert_eq!(
        print.external_ids,
        vec![
            pair("doi", "10.1145/3292500.3330648"),
            pair("dblp", "conf/kdd/JinSH19"),
            pair("ar_xiv", "1806.10282"),
            pair("corpus_id", "49412142"),
            pair("mag", "2964197269"),
        ]
    );
    assert_eq!(print.url, "https://www.semanticscholar.org/paper/c27a");
    assert_eq!(print.abstract_field, "");
    assert_eq!(print.venue, "");
    assert_eq!(print.year, 2019);
    assert_eq!(print.reference_count, 51);
    assert_eq!(print.references_count, 51);
    assert_eq!(print.citation_count, 700);
    assert_eq!(print.citations_count, 700);
    assert_eq!(print.influential_citation_count, 60);
    assert!(print.is_open_access);
    assert_eq!(
        print.open_access_pdf,
        vec![pair("url", "https://arxiv.org/pdf/1806.10282"), pair("status", "GREEN")]
    );
    assert_eq!(print.fields_of_study, vec!["Computer Science".to_string()]);
    assert_eq!(print.s2fields_of_study.len(), 1);
    assert!(print.publication_types.is_empty());
    assert_eq!(print.publication_date, "");
    assert_eq!(print.authors, vec![author("Haifeng Jin")]);
    assert_eq!(print.tldr, vec![pair("model", "tldr@v2"), pair("text", "A NAS system.")]);
}

#[test]
fn page_of_a_bare_paper() {
    let print = PaperDetailTemplateDetailPrint::from(PaperDetail::default());
    assert_eq!(print.corpus_id, 0);
    assert!(print.external_ids.is_empty());
    assert!(print.open_access_pdf.is_empty());
    assert!(print.tldr.is_empty());
    assert_eq!(id_table(Some(ExternalIds::default())), vec![]);
    assert_eq!(
        id_table(Some(ExternalIds {
            pub_med_central: Some("PMC1".to_string()),
            pub_med: Some("2".to_string()),
            corpus_id: Some(-3),
            ..ExternalIds::default()
        })),
        vec![pair("corpus_id", "-3"), pair("pub_med_central", "PMC1"), pair("pub_med", "2")]
    );
}

#[test]
fn address_of_a_citations_request() {
    let request = CitingRequest { paper_id: "c27a".to_string(), offset: 100, limit: 50 };
    assert_eq!(
        request.to_url(),
        "https://api.semanticscholar.org/graph/v1/paper/c27a/citations?offset=100&limit=50&fields=contexts,intents,isInfluential,paperId,corpusId,url,title,venue,publicationVenue,year,authors,externalIds,abstract,referenceCount,citationCount,influentialCitationCount,isOpenAccess,openAccessPdf,fieldsOfStudy,s2FieldsOfStudy,publicationTypes,publicationDate,journal,citationStyles"
    );
    let defaults = CitingRequest::default();
    assert_eq!(defaults, CitingRequest { paper_id: "".to_string(), offset: 0, limit: 100 });
    assert_eq!(citing_request("c27a"), CitingRequest { paper_id: "c27a".to_string(), offset: 0, limit: 100 });
}

#[test]
fn address_of_a_search() {
    let request = BulkRequest {
        query: "AI ML NLP".to_string(),
        min_citation_count: 3,
        publication_date_or_year: "2019:".to_string(),
    };
    assert_eq!(index_request(), request);
    assert_eq!(
        request.to_url(),
        "https://api.semanticscholar.org/graph/v1/paper/search/bulk?query=AI ML NLP&fields=paperId,corpusId,url,title,venue,year,authors,externalIds,abstract,referenceCount,citationCount,influentialCitationCount,isOpenAccess,openAccessPdf,fieldsOfStudy,s2FieldsOfStudy,publicationTypes,publicationDate,journal,citationStyles,authors&sort=citationCount:desc&minCitationCount=3&minCitationCount=3&publicationDateOrYear=2019:"
    );
    assert_eq!(
        BulkRequest::default(),
        BulkRequest { query: "".to_string(), min_citation_count: 3, publication_date_or_year: "2023".to_string() }
    );
    assert_eq!(
        search_request("nas", "2020"),
        BulkRequest { query: "nas".to_string(), min_citation_count: 3, publication_date_or_year: "2020".to_string() }
    );
}

#[test]
fn address_of_a_full_record() {
    assert_eq!(
        paper_detail_url("c27a"),
        "https://api.semanticscholar.org/graph/v1/paper/c27a?fields=paperId,corpusId,url,title,venue,publicationVenue,year,authors,externalIds,abstract,referenceCount,citationCount,influentialCitationCount,isOpenAccess,openAccessPdf,fieldsOfStudy,s2FieldsOfStudy,publicationTypes,publicationDate,journal,citationStyles,embedding,tldr"
    );
}

#[test]
fn answers_of_the_api() {
    assert_eq!(PaperCloneResponse::new(PdfFileStatus::Downloaded).status, "downloaded");
    assert_eq!(PaperCloneResponse::new(PdfFileStatus::NotStarted).status, "none");
    assert_eq!(PaperCloneResponse::new(PdfFileStatus::Accpeted).status, "accepted");
    assert_eq!(PaperBookmarkResponse::new().status, "");
    let request = PaperCloneRequest {
        paper_id: "10.1145/3292500.3330648".to_string(),
        doi: "10.1145/3292500.3330648".to_string(),
        url: "https://dl.acm.org/doi/pdf/10.1145/3292500.3330648".to_string(),
    };
    assert_eq!(request.clone(), request);
}

#[test]
fn tables_of_a_page_hold_no_key_twice() {
    let ids = ExternalIds {
        ar_xiv: Some("1".to_string()),
        dblp: Some("2".to_string()),
        doi: Some("3".to_string()),
        corpus_id: Some(4),
        pub_med_central: Some("5".to_string()),
        pub_med: Some("6".to_string()),
        mag: Some("7".to_string()),
    };
    let table = id_table(Some(ids));
    assert_eq!(table.len(), 7);
    for (i, a) in table.iter().enumerate() {
        for (j, b) in table.iter().enumerate() {
            assert_eq!(a.0 == b.0, i == j);
        }
    }
}
