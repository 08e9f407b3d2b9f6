//! A paper as a row of a table, and as a page of its own.

use vstd::prelude::*;
use crate::semantic_scholar_api::data::{
    Author, ExternalIds, OpenAccessPdf, Paper, PaperDetail, S2FieldsOfStudy, Tldr,
};
use crate::text::{
    debug_list, debug_list_text, decimal, decimal_string, join, joined, string_or_empty,
    text_or_empty, views,
};

verus! {

/// A paper as a row of a table.
#[derive(Debug, Clone, PartialEq)]
pub struct TableRowTemplate {
    pub paper_id: String,
    pub external_id: String,
    pub title: String,
    pub authors: String,
    pub keywords: String,
    pub abstract_content: String,
    pub year: String,
    pub venue: String,
    pub is_open_access: bool,
    pub citation_count: i32,
    pub reference_count: i32,
}

/// The names of a list of authors.
pub open spec fn author_names(authors: Seq<Author>) -> Seq<Seq<char>> {
    Seq::new(authors.len(), |i: int| authors[i].name@)
}

/// The six identifiers that a row lists, in order: DOI, PubMed, PubMed
/// Central, arXiv, DBLP and MAG, each empty where the paper has none.
pub open spec fn listed_ids(ids: ExternalIds) -> Seq<Seq<char>> {
    seq![
        text_or_empty(ids.doi),
        text_or_empty(ids.pub_med),
        text_or_empty(ids.pub_med_central),
        text_or_empty(ids.ar_xiv),
        text_or_empty(ids.dblp),
        text_or_empty(ids.mag),
    ]
}

/// What a row shows of the identifiers of a paper: nothing where it has
/// none, and else the list of the six.
pub open spec fn shown_ids(ids: Option<ExternalIds>) -> Seq<char> {
    match ids {
        Some(ids) => debug_list_text(listed_ids(ids)),
        None => Seq::empty(),
    }
}

/// The value of an optional number, and zero where there is none.
pub open spec fn number_or_zero(value: Option<i32>) -> int {
    match value {
        Some(n) => n as int,
        None => 0,
    }
}

/// The names of `authors`, in order.
pub fn names_of(authors: &[Author]) -> (names: Vec<String>)
    ensures
        views(names@) == author_names(authors@),
{
    let mut names: Vec<String> = Vec::new();
    let mut i: usize = 0;
    while i < authors.len()
        invariant
            i <= authors.len(),
            names@.len() == i,
            forall|k: int| 0 <= k < i ==> names@[k]@ == authors@[k].name@,
        decreases authors.len() - i,
    {
        names.push(authors[i].name.clone());
        i += 1;
    }
    assert(views(names@) =~= author_names(authors@));
    names
}

/// The names of the authors of a paper, with a comma and a space between
/// every two.
pub fn authors_line(authors: &[Author]) -> (line: String)
    ensures
        line@ == joined(author_names(authors@), ", "@),
{
    let names = names_of(authors);
    join(names.as_slice(), ", ")
}

/// What a row shows of the identifiers of a paper.
pub fn show_ids(ids: Option<ExternalIds>) -> (shown: String)
    ensures
        shown@ == shown_ids(ids),
{
    match ids {
        Some(ids) => {
            let ghost wanted = listed_ids(ids);
            let mut list: Vec<String> = Vec::new();
            list.push(string_or_empty(ids.doi));
            list.push(string_or_empty(ids.pub_med));
            list.push(string_or_empty(ids.pub_med_central));
            list.push(string_or_empty(ids.ar_xiv));
            list.push(string_or_empty(ids.dblp));
            list.push(string_or_empty(ids.mag));
            assert(views(list@) =~= wanted);
            debug_list(&list)
        },
        None => String::new(),
    }
}

impl TableRowTemplate {
    /// Whether this row shows the paper `x`: what the paper lacks shows as no
    /// authors, the year 0, an empty venue and abstract, and counts of zero.
    pub open spec fn shows(self, x: Paper) -> bool {
        &&& self.paper_id@ == text_or_empty(x.paper_id)
        &&& self.external_id@ == shown_ids(x.external_ids)
        &&& self.title@ == x.title@
        &&& self.authors@ == joined(
            match x.authors {
                Some(authors) => author_names(authors@),
                None => Seq::empty(),
            },
            ", "@,
        )
        &&& self.keywords@ == Seq::<char>::empty()
        &&& self.abstract_content@ == text_or_empty(x.abstract_field)
        &&& self.year@ == decimal(number_or_zero(x.year))
        &&& self.venue@ == text_or_empty(x.venue)
        &&& self.is_open_access == (x.is_open_access == Some(true))
        &&& self.citation_count == number_or_zero(x.citation_count)
        &&& self.reference_count == number_or_zero(x.reference_count)
    }

    /// The row of a paper.
    pub fn from(x: Paper) -> (row: TableRowTemplate)
        ensures
            row.shows(x),
    {
        let authors = match &x.authors {
            Some(authors) => authors_line(authors.as_slice()),
            None => String::new(),
        };
        TableRowTemplate {
            paper_id: string_or_empty(x.paper_id),
            title: x.title,
            external_id: show_ids(x.external_ids),
            authors,
            keywords: String::new(),
            abstract_content: string_or_empty(x.abstract_field),
            year: decimal_string(
                match x.year {
                    Some(year) => year,
                    None => 0,
                },
            ),
            venue: string_or_empty(x.venue),
            is_open_access: match x.is_open_access {
                Some(open) => open,
                None => false,
            },
            citation_count: match x.citation_count {
                Some(n) => n,
                None => 0,
            },
            reference_count: match x.reference_count {
                Some(n) => n,
                None => 0,
            },
        }
    }
}

/// The page of one paper.
#[derive(Debug, Clone, PartialEq)]
pub struct PaperDetailTemplate {
    pub paper_id: String,
    pub fetched: bool,
    pub paper_detail: PaperDetailTemplateDetailPrint,
}

/// What the page of a paper shows of it. The three tables hold their
/// entries as pairs of a key and a value, no key twice.
#[derive(Debug, Clone, PartialEq)]
pub struct PaperDetailTemplateDetailPrint {
    pub paper_id: String,
    pub corpus_id: i32,
    pub external_ids: Vec<(String, String)>,
    pub url: String,
    pub title: String,
    pub abstract_field: String,
    pub venue: String,
    pub year: i32,
    pub reference_count: i32,
    pub citation_count: i32,
    pub influential_citation_count: i32,
    pub is_open_access: bool,
    pub open_access_pdf: Vec<(String, String)>,
    pub fields_of_study: Vec<String>,
    pub s2fields_of_study: Vec<S2FieldsOfStudy>,
    pub publication_types: Vec<String>,
    pub publication_date: String,
    pub authors: Vec<Author>,
    pub references_count: i32,
    pub citations_count: i32,
    pub tldr: Vec<(String, String)>,
}

/// The entries of a table as mathematical values.
pub open spec fn entries_view(entries: Seq<(String, String)>) -> Seq<(Seq<char>, Seq<char>)> {
    Seq::new(entries.len(), |i: int| (entries[i].0@, entries[i].1@))
}

/// The entry of one identifier, where the paper has it.
pub open spec fn id_entry(key: Seq<char>, value: Option<String>) -> Seq<(Seq<char>, Seq<char>)> {
    match value {
        Some(text) => seq![(key, text@)],
        None => Seq::empty(),
    }
}

/// The table of the identifiers of a paper: an entry for each that it has.
pub open spec fn id_entries(ids: Option<ExternalIds>) -> Seq<(Seq<char>, Seq<char>)> {
    match ids {
        Some(ids) => id_entry("doi"@, ids.doi) + id_entry("dblp"@, ids.dblp) + id_entry(
            "ar_xiv"@,
            ids.ar_xiv,
        ) + (match ids.corpus_id {
            Some(n) => seq![("corpus_id"@, decimal(n as int))],
            None => Seq::empty(),
        }) + id_entry("pub_med_central"@, ids.pub_med_central) + id_entry("pub_med"@, ids.pub_med)
            + id_entry("mag"@, ids.mag),
        None => Seq::empty(),
    }
}

/// The table of the summary of a paper.
pub open spec fn tldr_entries(tldr: Option<Tldr>) -> Seq<(Seq<char>, Seq<char>)> {
    match tldr {
        Some(tldr) => seq![("model"@, tldr.model@), ("text"@, tldr.text@)],
        None => Seq::empty(),
    }
}

/// Whether an open-access PDF, where the paper has one, comes with both its
/// address and its status.
pub open spec fn pdf_is_complete(pdf: Option<OpenAccessPdf>) -> bool {
    pdf matches Some(pdf) ==> pdf.url is Some && pdf.status is Some
}

/// The table of the open-access PDF of a paper.
pub open spec fn pdf_entries(pdf: Option<OpenAccessPdf>) -> Seq<(Seq<char>, Seq<char>)> {
    match pdf {
        Some(pdf) => seq![("url"@, text_or_empty(pdf.url)), ("status"@, text_or_empty(pdf.status))],
        None => Seq::empty(),
    }
}

/// Whether no key comes twice among the entries of a table.
pub open spec fn keys_distinct(entries: Seq<(Seq<char>, Seq<char>)>) -> bool {
    forall|i: int, j: int| 0 <= i < j < entries.len() ==> entries[i].0 != entries[j].0
}

/// Whether every key of a table is among `allowed`.
pub open spec fn keys_within(entries: Seq<(Seq<char>, Seq<char>)>, allowed: Set<Seq<char>>) -> bool {
    forall|i: int| 0 <= i < entries.len() ==> allowed.contains(#[trigger] entries[i].0)
}

/// A table without a key twice stays so when at most one entry is added
/// under a key that it does not hold.
proof fn lemma_add_entry(
    entries: Seq<(Seq<char>, Seq<char>)>,
    more: Seq<(Seq<char>, Seq<char>)>,
    key: Seq<char>,
    allowed: Set<Seq<char>>,
)
    requires
        keys_distinct(entries),
        keys_within(entries, allowed),
        !allowed.contains(key),
        more.len() <= 1,
        more.len() == 1 ==> more[0].0 == key,
    ensures
        keys_distinct(entries + more),
        keys_within(entries + more, allowed.insert(key)),
{
    let all = entries + more;
    assert forall|i: int, j: int| 0 <= i < j < all.len() implies all[i].0 != all[j].0 by {
        assert(all[i] == entries[i]);
        if j < entries.len() {
            assert(all[j] == entries[j]);
        } else {
            assert(all[j] == more[0]);
            assert(allowed.contains(entries[i].0));
        }
    }
    assert forall|i: int| 0 <= i < all.len() implies allowed.insert(key).contains(
        #[trigger] all[i].0,
    ) by {
        if i < entries.len() {
            assert(all[i] == entries[i]);
            assert(allowed.contains(entries[i].0));
        } else {
            assert(all[i] == more[0]);
        }
    }
}

/// In each of the three tables of a page no key comes twice.
pub proof fn lemma_table_keys_distinct(
    ids: Option<ExternalIds>,
    pdf: Option<OpenAccessPdf>,
    tldr: Option<Tldr>,
)
    ensures
        keys_distinct(id_entries(ids)),
        keys_distinct(pdf_entries(pdf)),
        keys_distinct(tldr_entries(tldr)),
{
    reveal_strlit("doi");
    reveal_strlit("dblp");
    reveal_strlit("ar_xiv");
    reveal_strlit("corpus_id");
    reveal_strlit("pub_med_central");
    reveal_strlit("pub_med");
    reveal_strlit("mag");
    reveal_strlit("url");
    reveal_strlit("status");
    reveal_strlit("model");
    reveal_strlit("text");
    assert("doi"@[0] != "mag"@[0]);
    assert("doi"@.len() == 3 && "dblp"@.len() == 4 && "ar_xiv"@.len() == 6);
    assert("corpus_id"@.len() == 9 && "pub_med_central"@.len() == 15 && "pub_med"@.len() == 7);
    assert("url"@.len() == 3 && "status"@.len() == 6 && "model"@.len() == 5 && "text"@.len() == 4);
    match ids {
        Some(ids) => {
            let number: Seq<(Seq<char>, Seq<char>)> = match ids.corpus_id {
                Some(n) => seq![("corpus_id"@, decimal(n as int))],
                None => Seq::empty(),
            };
            let none: Seq<(Seq<char>, Seq<char>)> = Seq::empty();
            let e1 = none + id_entry("doi"@, ids.doi);
            let e2 = e1 + id_entry("dblp"@, ids.dblp);
            let e3 = e2 + id_entry("ar_xiv"@, ids.ar_xiv);
            let e4 = e3 + number;
            let e5 = e4 + id_entry("pub_med_central"@, ids.pub_med_central);
            let e6 = e5 + id_entry("pub_med"@, ids.pub_med);
            let e7 = e6 + id_entry("mag"@, ids.mag);
            let k0: Set<Seq<char>> = Set::empty();
            let k1 = k0.insert("doi"@);
            let k2 = k1.insert("dblp"@);
            let k3 = k2.insert("ar_xiv"@);
            let k4 = k3.insert("corpus_id"@);
            let k5 = k4.insert("pub_med_central"@);
            let k6 = k5.insert("pub_med"@);
            lemma_add_entry(none, id_entry("doi"@, ids.doi), "doi"@, k0);
            lemma_add_entry(e1, id_entry("dblp"@, ids.dblp), "dblp"@, k1);
            lemma_add_entry(e2, id_entry("ar_xiv"@, ids.ar_xiv), "ar_xiv"@, k2);
            lemma_add_entry(e3, number, "corpus_id"@, k3);
            lemma_add_entry(
                e4,
                id_entry("pub_med_central"@, ids.pub_med_central),
                "pub_med_central"@,
                k4,
            );
            lemma_add_entry(e5, id_entry("pub_med"@, ids.pub_med), "pub_med"@, k5);
            lemma_add_entry(e6, id_entry("mag"@, ids.mag), "mag"@, k6);
            assert(e1 =~= id_entry("doi"@, ids.doi));
            assert(id_entries(Some(ids)) == e7);
        },
        None => {},
    }
}

/// Adds the entry of one identifier to a table, where the paper has it.
fn push_id(entries: &mut Vec<(String, String)>, key: &str, value: Option<String>)
    ensures
        entries_view(final(entries)@) == entries_view(old(entries)@) + id_entry(key@, value),
{
    match value {
        Some(text) => {
            entries.push((key.to_owned(), text));
        },
        None => {},
    }
    assert(entries_view(entries@) =~= entries_view(old(entries)@) + id_entry(key@, value));
}

/// The table of the identifiers of a paper.
pub fn id_table(ids: Option<ExternalIds>) -> (entries: Vec<(String, String)>)
    ensures
        entries_view(entries@) == id_entries(ids),
{
    let mut entries: Vec<(String, String)> = Vec::new();
    assert(entries_view(entries@) =~= Seq::empty());
    match ids {
        Some(ids) => {
            push_id(&mut entries, "doi", ids.doi);
            push_id(&mut entries, "dblp", ids.dblp);
            push_id(&mut entries, "ar_xiv", ids.ar_xiv);
            let ghost before = entries_view(entries@);
            match ids.corpus_id {
                Some(n) => {
                    entries.push(("corpus_id".to_owned(), decimal_string(n)));
                    assert(entries_view(entries@) =~= before + seq![
                        ("corpus_id"@, decimal(n as int)),
                    ]);
                },
                None => {
                    assert(entries_view(entries@) =~= before + Seq::empty());
                },
            }
            push_id(&mut entries, "pub_med_central", ids.pub_med_central);
            push_id(&mut entries, "pub_med", ids.pub_med);
            push_id(&mut entries, "mag", ids.mag);
        },
        None => {},
    }
    entries
}

impl PaperDetailTemplateDetailPrint {
    /// Whether this is what a page shows of the full record `sorce`.
    pub open spec fn shows(self, sorce: PaperDetail) -> bool {
        &&& self.paper_id@ == sorce.paper_id@
        &&& self.corpus_id == number_or_zero(sorce.corpus_id)
        &&& entries_view(self.external_ids@) == id_entries(sorce.external_ids)
        &&& self.url@ == text_or_empty(sorce.url)
        &&& self.title@ == sorce.title@
        &&& self.abstract_field@ == text_or_empty(sorce.abstract_field)
        &&& self.venue@ == text_or_empty(sorce.venue)
        &&& self.year == sorce.year
        &&& self.reference_count == sorce.reference_count
        &&& self.citation_count == sorce.citation_count
        &&& self.influential_citation_count == sorce.influential_citation_count
        &&& self.is_open_access == sorce.is_open_access
        &&& entries_view(self.open_access_pdf@) == pdf_entries(sorce.open_access_pdf)
        &&& self.fields_of_study == sorce.fields_of_study
        &&& self.s2fields_of_study@ == (match sorce.s2fields_of_study {
            Some(fields) => fields@,
            None => Seq::empty(),
        })
        &&& self.publication_types@ == (match sorce.publication_types {
            Some(types) => types@,
            None => Seq::empty(),
        })
        &&& self.publication_date@ == text_or_empty(sorce.publication_date)
        &&& self.authors == sorce.authors
        &&& self.references_count == sorce.reference_count
        &&& self.citations_count == sorce.citation_count
        &&& entries_view(self.tldr@) == tldr_entries(sorce.tldr)
    }

    /// What the page of a paper shows of its full record. An open-access
    /// PDF that the record has must come with its address and its status.
    pub fn from(sorce: PaperDetail) -> (print: PaperDetailTemplateDetailPrint)
        requires
            pdf_is_complete(sorce.open_access_pdf),
        ensures
            print.shows(sorce),
    {
        let mut tldr_map: Vec<(String, String)> = Vec::new();
        match sorce.tldr {
            Some(tldr) => {
                tldr_map.push(("model".to_owned(), tldr.model));
                tldr_map.push(("text".to_owned(), tldr.text));
            },
            None => {},
        }
        assert(entries_view(tldr_map@) =~= tldr_entries(sorce.tldr));
        let mut open_pdf_map: Vec<(String, String)> = Vec::new();
        match sorce.open_access_pdf {
            Some(open_pdf) => {
                open_pdf_map.push(("url".to_owned(), string_or_empty(open_pdf.url)));
                open_pdf_map.push(("status".to_owned(), string_or_empty(open_pdf.status)));
            },
            None => {},
        }
        assert(entries_view(open_pdf_map@) =~= pdf_entries(sorce.open_access_pdf));
        PaperDetailTemplateDetailPrint {
            paper_id: sorce.paper_id,
            corpus_id: match sorce.corpus_id {
                Some(n) => n,
                None => 0,
            },
            external_ids: id_table(sorce.external_ids),
            url: string_or_empty(sorce.url),
            title: sorce.title,
            abstract_field: string_or_empty(sorce.abstract_field),
            venue: string_or_empty(sorce.venue),
            year: sorce.year,
            reference_count: sorce.reference_count,
            citation_count: sorce.citation_count,
            influential_citation_count: sorce.influential_citation_count,
            is_open_access: sorce.is_open_access,
            open_access_pdf: open_pdf_map,
            fields_of_study: sorce.fields_of_study,
            publication_types: match sorce.publication_types {
                Some(types) => types,
                None => Vec::new(),
            },
            publication_date: string_or_empty(sorce.publication_date),
            authors: sorce.authors,
            references_count: sorce.reference_count,
            citations_count: sorce.citation_count,
            s2fields_of_study: match sorce.s2fields_of_study {
                Some(fields) => fields,
                None => Vec::new(),
            },
            tldr: tldr_map,
        }
    }
}

} // verus!
