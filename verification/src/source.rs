use crate::chars::{contains_str, lower_of, lowercase, spec_contains};
use crate::date::{today, Date};
use vstd::prelude::*;

verus! {

/// One bibliographic source record.
///
/// `id` is `-1` while the record has not been persisted yet; storage assigns
/// a positive id on first create and the id never changes afterwards.  An
/// empty `author` is a valid "author unknown" marker, not an error.  When
/// `published_date_unknown` holds, `published_date` is non-authoritative and
/// must not show up in any rendering; `viewed_date` is always authoritative.
#[derive(Debug)]
pub struct Source {
    pub id: i64,
    pub title: String,
    pub url: String,
    pub author: String,
    pub published_date: Date,
    pub viewed_date: Date,
    pub published_date_unknown: bool,
    pub comment: String,
}

/// The mathematical value of a source record: its id as an integer and its
/// texts as character sequences.
pub struct SourceV {
    pub id: int,
    pub title: Seq<char>,
    pub url: Seq<char>,
    pub author: Seq<char>,
    pub published_date: Date,
    pub viewed_date: Date,
    pub published_date_unknown: bool,
    pub comment: Seq<char>,
}

impl SourceV {
    /// The same record with another id.
    pub open spec fn with_id(self, id: int) -> SourceV {
        SourceV { id: id, ..self }
    }

    /// Both calendar dates are well-formed.
    pub open spec fn dates_wf(self) -> bool {
        self.published_date.wf() && self.viewed_date.wf()
    }

    /// A well-formed record value: valid dates and an id that is either the
    /// unsaved marker or non-negative.
    pub open spec fn wf(self) -> bool {
        self.dates_wf() && self.id >= -1
    }
}

/// Two records that agree in every field except possibly the id.
pub open spec fn eq_except_id(a: SourceV, b: SourceV) -> bool {
    a.title == b.title && a.url == b.url && a.author == b.author && a.published_date
        == b.published_date && a.viewed_date == b.viewed_date && a.published_date_unknown
        == b.published_date_unknown && a.comment == b.comment
}

impl View for Source {
    type V = SourceV;

    open spec fn view(&self) -> SourceV {
        SourceV {
            id: self.id as int,
            title: self.title@,
            url: self.url@,
            author: self.author@,
            published_date: self.published_date,
            viewed_date: self.viewed_date,
            published_date_unknown: self.published_date_unknown,
            comment: self.comment@,
        }
    }
}

impl DeepView for Source {
    type V = SourceV;

    open spec fn deep_view(&self) -> SourceV {
        self.view()
    }
}

impl Clone for Source {
    fn clone(&self) -> (r: Self)
        ensures
            r@ == self@,
    {
        Source {
            id: self.id,
            title: self.title.clone(),
            url: self.url.clone(),
            author: self.author.clone(),
            published_date: self.published_date,
            viewed_date: self.viewed_date,
            published_date_unknown: self.published_date_unknown,
            comment: self.comment.clone(),
        }
    }
}

impl Source {
    /// A not-yet-persisted record built from user input.
    pub fn new_unsaved(
        title: String,
        url: String,
        author: String,
        published_date: Date,
        viewed_date: Date,
        published_date_unknown: bool,
        comment: String,
    ) -> (r: Source)
        requires
            published_date.wf(),
            viewed_date.wf(),
        ensures
            r@.wf(),
            r@.id == -1,
            r@.title == title@,
            r@.url == url@,
            r@.author == author@,
            r@.published_date == published_date,
            r@.viewed_date == viewed_date,
            r@.published_date_unknown == published_date_unknown,
            r@.comment == comment@,
    {
        Source {
            id: -1,
            title,
            url,
            author,
            published_date,
            viewed_date,
            published_date_unknown,
            comment,
        }
    }

    /// A copy of this record carrying the given id.
    pub fn cloned_with_id(&self, id: i64) -> (r: Source)
        ensures
            r@ == self@.with_id(id as int),
    {
        Source {
            id,
            title: self.title.clone(),
            url: self.url.clone(),
            author: self.author.clone(),
            published_date: self.published_date,
            viewed_date: self.viewed_date,
            published_date_unknown: self.published_date_unknown,
            comment: self.comment.clone(),
        }
    }

    /// Whether every field of the two records agrees.
    pub fn eq_fields(&self, other: &Source) -> (r: bool)
        ensures
            r == (self@ == other@),
    {
        let r = self.id == other.id && self.title.eq(&other.title) && self.url.eq(&other.url)
            && self.author.eq(&other.author) && self.published_date == other.published_date
            && self.viewed_date == other.viewed_date && self.published_date_unknown
            == other.published_date_unknown && self.comment.eq(&other.comment);
        if r {
            assert(self@ == other@);
        } else {
            assert(self@ != other@);
        }
        r
    }

    /// Whether the two records agree in every field except possibly the id.
    pub fn eq_fields_except_id(&self, other: &Source) -> (r: bool)
        ensures
            r == eq_except_id(self@, other@),
    {
        self.title.eq(&other.title) && self.url.eq(&other.url) && self.author.eq(&other.author)
            && self.published_date == other.published_date && self.viewed_date
            == other.viewed_date && self.published_date_unknown == other.published_date_unknown
            && self.comment.eq(&other.comment)
    }

    /// Whether the query occurs, case-insensitively, in the record's title,
    /// url or author.
    pub fn contains(&self, query: &str) -> (r: bool)
        ensures
            r == (spec_contains(lower_of(self@.title), lower_of(query@)) || spec_contains(
                lower_of(self@.url),
                lower_of(query@),
            ) || spec_contains(lower_of(self@.author), lower_of(query@))),
    {
        let q = lowercase(query);
        let t = lowercase(self.title.as_str());
        if contains_str(t.as_str(), q.as_str()) {
            return true;
        }
        let u = lowercase(self.url.as_str());
        if contains_str(u.as_str(), q.as_str()) {
            return true;
        }
        let a = lowercase(self.author.as_str());
        contains_str(a.as_str(), q.as_str())
    }
}

impl Default for Source {
    /// A blank, unsaved record whose dates start at the current local date.
    fn default() -> (r: Source)
        ensures
            r@.wf(),
            r@.id == -1,
            r@.title.len() == 0,
            r@.url.len() == 0,
            r@.author.len() == 0,
            r@.comment.len() == 0,
            r@.published_date_unknown == false,
    {
        let now = today();
        Source {
            id: -1,
            title: String::new(),
            url: String::new(),
            author: String::new(),
            published_date: now,
            viewed_date: now,
            published_date_unknown: false,
            comment: String::new(),
        }
    }
}

} // verus!
