//! The record that is taken from a document: what identifies an article,
//! its title and its abstract; which records count as valid and as
//! relevant; and how the fields are read from the nodes of a document.

use vstd::prelude::*;
use crate::text::{chars_contain, contains_text, str_eq, to_chars};
use crate::xml::{NodeView, XmlDocument, attribute_value, is_child, subtree_end, text_or_empty};

verus! {

/// One article.
#[derive(Clone, Debug, PartialEq, Eq)]
pub struct Article {
    pub title: String,
    pub pmid: String,
    pub doi: String,
    pub pmc: String,
    pub pii: String,
    pub paper_abstract: String,
}

/// An `Article` as plain values.
pub struct ArticleView {
    pub title: Seq<char>,
    pub pmid: Seq<char>,
    pub doi: Seq<char>,
    pub pmc: Seq<char>,
    pub pii: Seq<char>,
    pub paper_abstract: Seq<char>,
}

impl View for Article {
    type V = ArticleView;

    open spec fn view(&self) -> ArticleView {
        ArticleView {
            title: self.title@,
            pmid: self.pmid@,
            doi: self.doi@,
            pmc: self.pmc@,
            pii: self.pii@,
            paper_abstract: self.paper_abstract@,
        }
    }
}

/// The views of a list of articles.
pub open spec fn article_views(articles: Seq<Article>) -> Seq<ArticleView> {
    articles.map_values(|a: Article| a@)
}

/// The article with every field empty.
pub open spec fn empty_article() -> ArticleView {
    ArticleView {
        title: Seq::empty(),
        pmid: Seq::empty(),
        doi: Seq::empty(),
        pmc: Seq::empty(),
        pii: Seq::empty(),
        paper_abstract: Seq::empty(),
    }
}

/// An article is valid if it has a title and a DOI.
pub open spec fn is_valid(a: ArticleView) -> bool {
    a.title.len() > 0 && a.doi.len() > 0
}

/// A text is relevant if it holds one of the three key words.
pub open spec fn is_relevant_text(text: Seq<char>) -> bool {
    ||| contains_text(text, "cancer"@)
    ||| contains_text(text, "oncology"@)
    ||| contains_text(text, "tumor"@)
}

/// An article is relevant if its title and its abstract both are.
pub open spec fn is_relevant(a: ArticleView) -> bool {
    is_relevant_text(a.title) && is_relevant_text(a.paper_abstract)
}

/// The relevant articles of a list, in their order.
pub open spec fn relevant_only(articles: Seq<ArticleView>) -> Seq<ArticleView> {
    articles.filter(|a: ArticleView| is_relevant(a))
}

/// What is left of a list of valid articles after the ones that are not
/// relevant are dropped is valid and relevant, and no longer than the list.
pub proof fn lemma_relevant_only(articles: Seq<ArticleView>)
    requires
        forall|i: int| 0 <= i < articles.len() ==> is_valid(#[trigger] articles[i]),
    ensures
        forall|i: int|
            0 <= i < relevant_only(articles).len() ==> is_valid(
                #[trigger] relevant_only(articles)[i],
            ) && is_relevant(relevant_only(articles)[i]),
        relevant_only(articles).len() <= articles.len(),
    decreases articles.len(),
{
    reveal(Seq::filter);
    if articles.len() > 0 {
        let front = articles.drop_last();
        assert forall|i: int| 0 <= i < front.len() implies is_valid(#[trigger] front[i]) by {
            assert(front[i] == articles[i]);
        }
        lemma_relevant_only(front);
    }
}

/// The last child of `parent` called `name` among the nodes before `upto`.
pub open spec fn last_child_named(doc: Seq<NodeView>, parent: int, name: Seq<char>, upto: int)
    -> Option<int>
    decreases upto,
{
    if upto <= 0 {
        None
    } else if is_child(doc, parent, upto - 1) && doc[upto - 1].name == name {
        Some(upto - 1)
    } else {
        last_child_named(doc, parent, name, upto - 1)
    }
}

/// The last `AbstractText` child of an `Abstract` child of `article`, among
/// the `Abstract` children before `upto`: the abstract that is read last
/// when the children are visited in the order of the document.
pub open spec fn last_abstract_text(doc: Seq<NodeView>, article: int, upto: int) -> Option<int>
    decreases upto,
{
    if upto <= 0 {
        None
    } else if is_child(doc, article, upto - 1) && doc[upto - 1].name == "Abstract"@ {
        match last_child_named(
            doc,
            upto - 1,
            "AbstractText"@,
            subtree_end(doc, upto - 1),
        ) {
            Some(found) => Some(found),
            None => last_abstract_text(doc, article, upto - 1),
        }
    } else {
        last_abstract_text(doc, article, upto - 1)
    }
}

/// The article `a` after reading the `Article` element `node`: the title is
/// the text of the last `ArticleTitle` child, the abstract that of the last
/// `AbstractText` under an `Abstract` child. A field for which the element
/// has nothing stays as it is.
pub open spec fn with_article_data(a: ArticleView, doc: Seq<NodeView>, node: int) -> ArticleView {
    let end = subtree_end(doc, node);
    ArticleView {
        title: match last_child_named(doc, node, "ArticleTitle"@, end) {
            Some(found) => text_or_empty(doc[found]),
            None => a.title,
        },
        paper_abstract: match last_abstract_text(doc, node, end) {
            Some(found) => text_or_empty(doc[found]),
            None => a.paper_abstract,
        },
        ..a
    }
}

/// Whether `node` is an `ArticleId` child of `list` whose `IdType` is `kind`.
pub open spec fn is_article_id(doc: Seq<NodeView>, list: int, node: int, kind: Seq<char>)
    -> bool {
    &&& is_child(doc, list, node)
    &&& doc[node].name == "ArticleId"@
    &&& attribute_value(doc[node], "IdType"@) == Some(kind)
}

/// The last `ArticleId` child of `list` of the kind `kind` before `upto`.
pub open spec fn last_article_id(doc: Seq<NodeView>, list: int, kind: Seq<char>, upto: int)
    -> Option<int>
    decreases upto,
{
    if upto <= 0 {
        None
    } else if is_article_id(doc, list, upto - 1, kind) {
        Some(upto - 1)
    } else {
        last_article_id(doc, list, kind, upto - 1)
    }
}

/// The identifier of the kind `kind` that `list` gives, or `otherwise`
/// where it gives none.
pub open spec fn id_or(doc: Seq<NodeView>, list: int, kind: Seq<char>, otherwise: Seq<char>)
    -> Seq<char> {
    match last_article_id(doc, list, kind, subtree_end(doc, list)) {
        Some(found) => text_or_empty(doc[found]),
        None => otherwise,
    }
}

/// The article `a` after reading the `ArticleIdList` element `list`: each of
/// the four identifiers is the text of the last `ArticleId` child of its
/// kind, and stays as it is where the list has none of that kind.
pub open spec fn with_id_list(a: ArticleView, doc: Seq<NodeView>, list: int) -> ArticleView {
    ArticleView {
        doi: id_or(doc, list, "doi"@, a.doi),
        pmid: id_or(doc, list, "pubmed"@, a.pmid),
        pmc: id_or(doc, list, "pmc"@, a.pmc),
        pii: id_or(doc, list, "pii"@, a.pii),
        ..a
    }
}

/// The article `a` after reading, in the order of the document, the
/// `ArticleIdList` children of `node` that lie before `upto`.
pub open spec fn with_id_lists(a: ArticleView, doc: Seq<NodeView>, node: int, upto: int)
    -> ArticleView
    decreases upto,
{
    if upto <= 0 {
        a
    } else {
        let before = with_id_lists(a, doc, node, upto - 1);
        if is_child(doc, node, upto - 1) && doc[upto - 1].name == "ArticleIdList"@ {
            with_id_list(before, doc, upto - 1)
        } else {
            before
        }
    }
}

/// The article `a` after reading the `PubmedData` element `node`.
pub open spec fn with_pubmed_data(a: ArticleView, doc: Seq<NodeView>, node: int) -> ArticleView {
    with_id_lists(a, doc, node, subtree_end(doc, node))
}

/// The article gathered from the nodes of the subtree of `node` that lie
/// before `upto`, visited in the order of the document: an `Article` element
/// gives the title and the abstract, a `PubmedData` element the identifiers.
pub open spec fn gathered(doc: Seq<NodeView>, node: int, upto: int) -> ArticleView
    decreases upto,
{
    if upto <= 0 || upto <= node {
        empty_article()
    } else {
        let before = gathered(doc, node, upto - 1);
        if doc[upto - 1].name == "Article"@ {
            with_article_data(before, doc, upto - 1)
        } else if doc[upto - 1].name == "PubmedData"@ {
            with_pubmed_data(before, doc, upto - 1)
        } else {
            before
        }
    }
}

/// The article that the subtree of `node` describes.
pub open spec fn article_of(doc: Seq<NodeView>, node: int) -> ArticleView {
    gathered(doc, node, subtree_end(doc, node))
}

/// What `last_child_named` finds is a child of that name with no child of
/// that name after it; where it finds nothing, there is no such child.
pub proof fn lemma_last_child_named(doc: Seq<NodeView>, parent: int, name: Seq<char>, upto: int)
    ensures
        match last_child_named(doc, parent, name, upto) {
            Some(found) => {
                &&& 0 <= found < upto
                &&& is_child(doc, parent, found)
                &&& doc[found].name == name
                &&& forall|later: int|
                    found < later < upto ==> !(is_child(doc, parent, later) && doc[later].name
                        == name)
            },
            None => forall|any: int|
                0 <= any < upto ==> !(is_child(doc, parent, any) && doc[any].name == name),
        },
    decreases upto,
{
    if upto > 0 {
        lemma_last_child_named(doc, parent, name, upto - 1);
    }
}

/// What `last_article_id` finds is an identifier of the kind with no
/// identifier of the kind after it; where it finds nothing, there is none.
pub proof fn lemma_last_article_id(doc: Seq<NodeView>, list: int, kind: Seq<char>, upto: int)
    ensures
        match last_article_id(doc, list, kind, upto) {
            Some(found) => {
                &&& 0 <= found < upto
                &&& is_article_id(doc, list, found, kind)
                &&& forall|later: int|
                    found < later < upto ==> !is_article_id(doc, list, later, kind)
            },
            None => forall|any: int| 0 <= any < upto ==> !is_article_id(doc, list, any, kind),
        },
    decreases upto,
{
    if upto > 0 {
        lemma_last_article_id(doc, list, kind, upto - 1);
    }
}

/// A node has no child at or before itself.
pub proof fn lemma_no_child_upto(doc: Seq<NodeView>, parent: int, name: Seq<char>, upto: int)
    requires
        upto <= parent + 1,
    ensures
        last_child_named(doc, parent, name, upto) is None,
    decreases upto,
{
    if upto > 0 {
        lemma_no_child_upto(doc, parent, name, upto - 1);
    }
}

/// A node has no `Abstract` child at or before itself.
pub proof fn lemma_no_abstract_upto(doc: Seq<NodeView>, article: int, upto: int)
    requires
        upto <= article + 1,
    ensures
        last_abstract_text(doc, article, upto) is None,
    decreases upto,
{
    if upto > 0 {
        lemma_no_abstract_upto(doc, article, upto - 1);
    }
}

/// A list has no `ArticleId` child at or before itself.
pub proof fn lemma_no_article_id_upto(doc: Seq<NodeView>, list: int, kind: Seq<char>, upto: int)
    requires
        upto <= list + 1,
    ensures
        last_article_id(doc, list, kind, upto) is None,
    decreases upto,
{
    if upto > 0 {
        lemma_no_article_id_upto(doc, list, kind, upto - 1);
    }
}

/// A node has no `ArticleIdList` child at or before itself.
pub proof fn lemma_no_id_list_upto(a: ArticleView, doc: Seq<NodeView>, node: int, upto: int)
    requires
        upto <= node + 1,
    ensures
        with_id_lists(a, doc, node, upto) == a,
    decreases upto,
{
    if upto > 0 {
        lemma_no_id_list_upto(a, doc, node, upto - 1);
    }
}

/// The position of the last child of `parent` called `name`.
pub fn find_last_child_named(doc: &XmlDocument, parent: usize, name: &str) -> (found: Option<
    usize,
>)
    ensures
        match found {
            Some(c) => last_child_named(
                doc@,
                parent as int,
                name@,
                subtree_end(doc@, parent as int),
            ) == Some(c as int) && c < doc@.len(),
            None => last_child_named(doc@, parent as int, name@, subtree_end(doc@, parent as int))
                is None,
        },
        found matches Some(c) ==> {
            &&& is_child(doc@, parent as int, c as int)
            &&& doc@[c as int].name == name@
            &&& forall|later: int|
                c < later < subtree_end(doc@, parent as int) ==> !(is_child(
                    doc@,
                    parent as int,
                    later,
                ) && doc@[later].name == name@)
        },
        found is None ==> forall|any: int|
            0 <= any < subtree_end(doc@, parent as int) ==> !(is_child(doc@, parent as int, any)
                && doc@[any].name == name@),
{
    let end: usize = doc.subtree_end(parent);
    proof {
        lemma_last_child_named(doc@, parent as int, name@, end as int);
    }
    let mut upto: usize = end;
    while upto > 0 && upto - 1 > parent
        invariant
            end == subtree_end(doc@, parent as int),
            upto <= end,
            last_child_named(doc@, parent as int, name@, end as int) == last_child_named(
                doc@,
                parent as int,
                name@,
                upto as int,
            ),
        decreases upto,
    {
        let c: usize = upto - 1;
        if doc.is_child(parent, c) && doc.node(c).is_named(name) {
            proof {
                lemma_last_child_named(doc@, parent as int, name@, end as int);
            }
            return Some(c);
        }
        upto = c;
    }
    proof {
        lemma_no_child_upto(doc@, parent as int, name@, upto as int);
    }
    None
}

/// The position of the last `ArticleId` child of `list` of the kind `kind`.
pub fn find_last_article_id(doc: &XmlDocument, list: usize, kind: &str) -> (found: Option<usize>)
    ensures
        match found {
            Some(c) => last_article_id(doc@, list as int, kind@, subtree_end(doc@, list as int))
                == Some(c as int) && c < doc@.len(),
            None => last_article_id(doc@, list as int, kind@, subtree_end(doc@, list as int))
                is None,
        },
        found matches Some(c) ==> {
            &&& is_article_id(doc@, list as int, c as int, kind@)
            &&& forall|later: int|
                c < later < subtree_end(doc@, list as int) ==> !is_article_id(
                    doc@,
                    list as int,
                    later,
                    kind@,
                )
        },
        found is None ==> forall|any: int|
            0 <= any < subtree_end(doc@, list as int) ==> !is_article_id(
                doc@,
                list as int,
                any,
                kind@,
            ),
{
    let end: usize = doc.subtree_end(list);
    proof {
        lemma_last_article_id(doc@, list as int, kind@, end as int);
    }
    let mut upto: usize = end;
    while upto > 0 && upto - 1 > list
        invariant
            end == subtree_end(doc@, list as int),
            upto <= end,
            last_article_id(doc@, list as int, kind@, end as int) == last_article_id(
                doc@,
                list as int,
                kind@,
                upto as int,
            ),
        decreases upto,
    {
        let c: usize = upto - 1;
        if doc.is_child(list, c) && doc.node(c).is_named("ArticleId") {
            match doc.node(c).attribute("IdType") {
                Some(value) => {
                    if str_eq(value.as_str(), kind) {
                        proof {
                            lemma_last_article_id(doc@, list as int, kind@, end as int);
                        }
                        return Some(c);
                    }
                },
                None => {},
            }
        }
        upto = c;
    }
    proof {
        lemma_no_article_id_upto(doc@, list as int, kind@, upto as int);
    }
    None
}

/// The position of the `AbstractText` that is read last under `article`.
pub fn find_last_abstract_text(doc: &XmlDocument, article: usize) -> (found: Option<usize>)
    ensures
        match found {
            Some(c) => last_abstract_text(doc@, article as int, subtree_end(doc@, article as int))
                == Some(c as int) && c < doc@.len(),
            None => last_abstract_text(doc@, article as int, subtree_end(doc@, article as int))
                is None,
        },
{
    let end: usize = doc.subtree_end(article);
    let mut upto: usize = end;
    while upto > 0 && upto - 1 > article
        invariant
            end == subtree_end(doc@, article as int),
            upto <= end,
            last_abstract_text(doc@, article as int, end as int) == last_abstract_text(
                doc@,
                article as int,
                upto as int,
            ),
        decreases upto,
    {
        let c: usize = upto - 1;
        if doc.is_child(article, c) && doc.node(c).is_named("Abstract") {
            match find_last_child_named(doc, c, "AbstractText") {
                Some(found) => {
                    return Some(found);
                },
                None => {},
            }
        }
        upto = c;
    }
    proof {
        lemma_no_abstract_upto(doc@, article as int, upto as int);
    }
    None
}

impl Article {
    /// An article with every field empty.
    pub fn new() -> (article: Article)
        ensures
            article@ == empty_article(),
    {
        Article {
            title: String::new(),
            doi: String::new(),
            pmid: String::new(),
            pii: String::new(),
            pmc: String::new(),
            paper_abstract: String::new(),
        }
    }

    /// Reads the title and the abstract from the `Article` element at `node`.
    pub fn set_from_article_data(&mut self, doc: &XmlDocument, node: usize)
        ensures
            final(self)@ == with_article_data(old(self)@, doc@, node as int),
    {
        match find_last_child_named(doc, node, "ArticleTitle") {
            Some(found) => {
                self.title = doc.node(found).text_or_empty();
            },
            None => {},
        }
        match find_last_abstract_text(doc, node) {
            Some(found) => {
                self.paper_abstract = doc.node(found).text_or_empty();
            },
            None => {},
        }
    }

    /// Reads the identifiers from the `PubmedData` element at `node`: from
    /// each of its `ArticleIdList` children, in the order of the document.
    pub fn set_from_pubmed_data(&mut self, doc: &XmlDocument, node: usize)
        ensures
            final(self)@ == with_pubmed_data(old(self)@, doc@, node as int),
    {
        let end: usize = doc.subtree_end(node);
        if end <= node {
            proof {
                lemma_no_id_list_upto(old(self)@, doc@, node as int, end as int);
            }
            return ;
        }
        let mut c: usize = node + 1;
        proof {
            lemma_no_id_list_upto(old(self)@, doc@, node as int, c as int);
        }
        while c < end
            invariant
                end == subtree_end(doc@, node as int),
                node < c <= end,
                self@ == with_id_lists(old(self)@, doc@, node as int, c as int),
            decreases end - c,
        {
            if doc.is_child(node, c) && doc.node(c).is_named("ArticleIdList") {
                self.set_doi_for_id_list(doc, c);
            }
            c += 1;
        }
    }

    /// Reads the identifiers from the `ArticleIdList` element at `list`.
    pub fn set_doi_for_id_list(&mut self, doc: &XmlDocument, list: usize)
        ensures
            final(self)@ == with_id_list(old(self)@, doc@, list as int),
    {
        match find_last_article_id(doc, list, "doi") {
            Some(found) => {
                self.doi = doc.node(found).text_or_empty();
            },
            None => {},
        }
        match find_last_article_id(doc, list, "pubmed") {
            Some(found) => {
                self.pmid = doc.node(found).text_or_empty();
            },
            None => {},
        }
        match find_last_article_id(doc, list, "pmc") {
            Some(found) => {
                self.pmc = doc.node(found).text_or_empty();
            },
            None => {},
        }
        match find_last_article_id(doc, list, "pii") {
            Some(found) => {
                self.pii = doc.node(found).text_or_empty();
            },
            None => {},
        }
    }

    /// Whether the article has a title and a DOI.
    pub fn is_valid(&self) -> (valid: bool)
        ensures
            valid == is_valid(self@),
    {
        !self.title.as_str().is_empty() && !self.doi.as_str().is_empty()
    }

    /// The lines that describe the article: title, PMC id, DOI, abstract,
    /// and a rule.
    pub fn print(&self) -> (lines: Vec<String>)
        ensures
            lines@.len() == 5,
            lines@[0]@ == self@.title,
            lines@[1]@ == self@.pmc,
            lines@[2]@ == self@.doi,
            lines@[3]@ == self@.paper_abstract,
            lines@[4]@ == "----------------"@,
    {
        let mut lines: Vec<String> = Vec::new();
        lines.push(self.title.clone());
        lines.push(self.pmc.clone());
        lines.push(self.doi.clone());
        lines.push(self.paper_abstract.clone());
        lines.push(String::from_str("----------------"));
        lines
    }

    /// Whether the title and the abstract both hold one of the key words.
    pub fn is_article_relevant(&self) -> (relevant: bool)
        ensures
            relevant == is_relevant(self@),
    {
        Article::is_string_relevant(&self.title) && Article::is_string_relevant(
            &self.paper_abstract,
        )
    }

    /// Whether `some_text` holds one of the key words.
    pub fn is_string_relevant(some_text: &String) -> (relevant: bool)
        ensures
            relevant == is_relevant_text(some_text@),
    {
        let chars = to_chars(some_text.as_str());
        if chars_contain(&chars, &to_chars("cancer")) {
            return true;
        }
        if chars_contain(&chars, &to_chars("oncology")) {
            return true;
        }
        if chars_contain(&chars, &to_chars("tumor")) {
            return true;
        }
        return false;
    }
}

} // verus!
