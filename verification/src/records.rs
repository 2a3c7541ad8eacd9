//! The records of the registry and the rows that hold them.

use vstd::prelude::*;
use crate::codec::{bytes_eq, fields_view, frame, frame_row, framable, fits, lemma_unframe_frame, unframe, unframe_bytes};
use crate::fields::{count_field, count_of_field, decode_count, decode_list, decode_text, encode_count, encode_list, lemma_count_round_trip, lemma_list_round_trip, lemma_text_field_round_trip, list_field, list_of_field, text_field, text_of_field};
use crate::text::{text_eq, text_to_bytes};

verus! {

/// A publisher. Each update replaces the record as a whole.
#[derive(Debug, PartialEq, Eq)]
pub struct Publisher {
    /// The anchor that names the publisher and the instance it belongs to.
    pub anchor: String,
    /// What is known of the publisher.
    pub info: String,
}

/// A code artifact, identified by its kind and its source text.
#[derive(Debug, PartialEq, Eq)]
pub struct CodeData {
    /// The anchor that names the record and the instance it belongs to.
    pub anchor: String,
    /// The kind of code.
    pub code: String,
    /// The source text.
    pub js: String,
}

/// An API descriptor, identified by its content.
#[derive(Debug, PartialEq, Eq)]
pub struct ApiData {
    /// The anchor that names the record and the instance it belongs to.
    pub anchor: String,
    /// The descriptor itself.
    pub content: String,
}

/// A bundle, identified by the records that it composes.
#[derive(Debug, PartialEq, Eq)]
pub struct Combined {
    /// The anchor that names the bundle and the instance it belongs to.
    pub anchor: String,
    /// The hashes of the code and API records that the bundle composes.
    pub components: Vec<Vec<u8>>,
    /// How often the bundle was called.
    pub called: u64,
}

/// A publisher as a mathematical value.
pub struct PublisherModel {
    pub anchor: Seq<char>,
    pub info: Seq<char>,
}

/// A code artifact as a mathematical value.
pub struct CodeModel {
    pub anchor: Seq<char>,
    pub code: Seq<char>,
    pub js: Seq<char>,
}

/// An API descriptor as a mathematical value.
pub struct ApiModel {
    pub anchor: Seq<char>,
    pub content: Seq<char>,
}

/// A bundle as a mathematical value.
pub struct CombinedModel {
    pub anchor: Seq<char>,
    pub components: Seq<Seq<u8>>,
    pub called: u64,
}

impl View for Publisher {
    type V = PublisherModel;

    open spec fn view(&self) -> PublisherModel {
        PublisherModel { anchor: self.anchor@, info: self.info@ }
    }
}

impl View for CodeData {
    type V = CodeModel;

    open spec fn view(&self) -> CodeModel {
        CodeModel { anchor: self.anchor@, code: self.code@, js: self.js@ }
    }
}

impl View for ApiData {
    type V = ApiModel;

    open spec fn view(&self) -> ApiModel {
        ApiModel { anchor: self.anchor@, content: self.content@ }
    }
}

impl View for Combined {
    type V = CombinedModel;

    open spec fn view(&self) -> CombinedModel {
        CombinedModel { anchor: self.anchor@, components: fields_view(self.components), called: self.called }
    }
}

impl PublisherModel {
    /// The fields of the row that holds the publisher.
    pub open spec fn fields(self) -> Seq<Seq<u8>> {
        seq![text_field(self.anchor), text_field(self.info)]
    }

    /// The row that holds the publisher.
    pub open spec fn row(self) -> Seq<u8> {
        frame(self.fields())
    }

    /// The publisher is small enough to be stored.
    pub open spec fn storable(self) -> bool {
        fits(self.fields())
    }

    /// The publisher that a list of fields holds.
    pub open spec fn of_fields(fs: Seq<Seq<u8>>) -> Option<PublisherModel> {
        if fs.len() == 2 && text_of_field(fs[0]) is Some && text_of_field(fs[1]) is Some {
            Some(PublisherModel { anchor: text_of_field(fs[0]).unwrap(), info: text_of_field(fs[1]).unwrap() })
        } else {
            None
        }
    }

    /// The publisher that a row holds.
    pub open spec fn of_row(bytes: Seq<u8>) -> Option<PublisherModel> {
        match unframe(bytes) {
            Some(fs) => Self::of_fields(fs),
            None => None,
        }
    }

    /// The row of a publisher reads back as that publisher.
    pub proof fn lemma_round_trip(self)
        requires
            self.storable(),
        ensures
            Self::of_row(self.row()) == Some(self),
    {
        lemma_unframe_frame(self.fields());
        lemma_text_field_round_trip(self.anchor);
        lemma_text_field_round_trip(self.info);
    }
}

impl CodeModel {
    /// The fields of the row that holds the record.
    pub open spec fn fields(self) -> Seq<Seq<u8>> {
        seq![text_field(self.anchor), text_field(self.code), text_field(self.js)]
    }

    /// The row that holds the record.
    pub open spec fn row(self) -> Seq<u8> {
        frame(self.fields())
    }

    /// The record is small enough to be stored.
    pub open spec fn storable(self) -> bool {
        fits(self.fields())
    }

    /// The record that a list of fields holds.
    pub open spec fn of_fields(fs: Seq<Seq<u8>>) -> Option<CodeModel> {
        if fs.len() == 3 && text_of_field(fs[0]) is Some && text_of_field(fs[1]) is Some && text_of_field(
            fs[2],
        ) is Some {
            Some(
                CodeModel {
                    anchor: text_of_field(fs[0]).unwrap(),
                    code: text_of_field(fs[1]).unwrap(),
                    js: text_of_field(fs[2]).unwrap(),
                },
            )
        } else {
            None
        }
    }

    /// The record that a row holds.
    pub open spec fn of_row(bytes: Seq<u8>) -> Option<CodeModel> {
        match unframe(bytes) {
            Some(fs) => Self::of_fields(fs),
            None => None,
        }
    }

    /// Two records are the same code: the same kind and the same source
    /// text.
    pub open spec fn same_content(self, other: CodeModel) -> bool {
        self.code == other.code && self.js == other.js
    }

    /// The row of a record reads back as that record.
    pub proof fn lemma_round_trip(self)
        requires
            self.storable(),
        ensures
            Self::of_row(self.row()) == Some(self),
    {
        lemma_unframe_frame(self.fields());
        lemma_text_field_round_trip(self.anchor);
        lemma_text_field_round_trip(self.code);
        lemma_text_field_round_trip(self.js);
    }
}

impl ApiModel {
    /// The fields of the row that holds the record.
    pub open spec fn fields(self) -> Seq<Seq<u8>> {
        seq![text_field(self.anchor), text_field(self.content)]
    }

    /// The row that holds the record.
    pub open spec fn row(self) -> Seq<u8> {
        frame(self.fields())
    }

    /// The record is small enough to be stored.
    pub open spec fn storable(self) -> bool {
        fits(self.fields())
    }

    /// The record that a list of fields holds.
    pub open spec fn of_fields(fs: Seq<Seq<u8>>) -> Option<ApiModel> {
        if fs.len() == 2 && text_of_field(fs[0]) is Some && text_of_field(fs[1]) is Some {
            Some(ApiModel { anchor: text_of_field(fs[0]).unwrap(), content: text_of_field(fs[1]).unwrap() })
        } else {
            None
        }
    }

    /// The record that a row holds.
    pub open spec fn of_row(bytes: Seq<u8>) -> Option<ApiModel> {
        match unframe(bytes) {
            Some(fs) => Self::of_fields(fs),
            None => None,
        }
    }

    /// Two records are the same descriptor: their content is equal.
    pub open spec fn same_content(self, other: ApiModel) -> bool {
        self.content == other.content
    }

    /// The row of a record reads back as that record.
    pub proof fn lemma_round_trip(self)
        requires
            self.storable(),
        ensures
            Self::of_row(self.row()) == Some(self),
    {
        lemma_unframe_frame(self.fields());
        lemma_text_field_round_trip(self.anchor);
        lemma_text_field_round_trip(self.content);
    }
}

impl CombinedModel {
    /// The fields of the row that holds the bundle.
    pub open spec fn fields(self) -> Seq<Seq<u8>> {
        seq![text_field(self.anchor), list_field(self.components), count_field(self.called)]
    }

    /// The row that holds the bundle.
    pub open spec fn row(self) -> Seq<u8> {
        frame(self.fields())
    }

    /// The bundle is small enough to be stored.
    pub open spec fn storable(self) -> bool {
        framable(self.components) && fits(self.fields())
    }

    /// The bundle that a list of fields holds.
    pub open spec fn of_fields(fs: Seq<Seq<u8>>) -> Option<CombinedModel> {
        if fs.len() == 3 && text_of_field(fs[0]) is Some && list_of_field(fs[1]) is Some && count_of_field(
            fs[2],
        ) is Some {
            Some(
                CombinedModel {
                    anchor: text_of_field(fs[0]).unwrap(),
                    components: list_of_field(fs[1]).unwrap(),
                    called: count_of_field(fs[2]).unwrap(),
                },
            )
        } else {
            None
        }
    }

    /// The bundle that a row holds.
    pub open spec fn of_row(bytes: Seq<u8>) -> Option<CombinedModel> {
        match unframe(bytes) {
            Some(fs) => Self::of_fields(fs),
            None => None,
        }
    }

    /// Two bundles are the same: they compose the same records.
    pub open spec fn same_content(self, other: CombinedModel) -> bool {
        self.components == other.components
    }

    /// The bundle with its counter set to `called`.
    pub open spec fn with_called(self, called: u64) -> CombinedModel {
        CombinedModel { called, ..self }
    }

    /// The row of a bundle reads back as that bundle.
    pub proof fn lemma_round_trip(self)
        requires
            self.storable(),
        ensures
            Self::of_row(self.row()) == Some(self),
    {
        lemma_unframe_frame(self.fields());
        lemma_text_field_round_trip(self.anchor);
        lemma_list_round_trip(self.components);
        lemma_count_round_trip(self.called);
    }
}

impl Publisher {
    /// The row that holds the publisher; `None` where a field is too long
    /// to be stored.
    pub fn encode(&self) -> (out: Option<Vec<u8>>)
        ensures
            out is Some <==> self@.storable(),
            out matches Some(b) ==> b@ == self@.row(),
    {
        let mut fields: Vec<Vec<u8>> = Vec::new();
        fields.push(text_to_bytes(&self.anchor));
        fields.push(text_to_bytes(&self.info));
        assert(fields_view(fields) =~= self@.fields());
        frame_row(&fields)
    }

    /// The publisher that a row holds; `None` where the row holds none.
    pub fn decode(bytes: &Vec<u8>) -> (out: Option<Publisher>)
        ensures
            out is Some <==> PublisherModel::of_row(bytes@) is Some,
            out matches Some(p) ==> PublisherModel::of_row(bytes@) == Some(p@),
    {
        let fields = match unframe_bytes(bytes) {
            Some(fields) => fields,
            None => return None,
        };
        if fields.len() != 2 {
            return None;
        }
        let anchor = match decode_text(&fields[0]) {
            Some(s) => s,
            None => return None,
        };
        let info = match decode_text(&fields[1]) {
            Some(s) => s,
            None => return None,
        };
        Some(Publisher { anchor, info })
    }
}

impl CodeData {
    /// The row that holds the record; `None` where a field is too long to
    /// be stored.
    pub fn encode(&self) -> (out: Option<Vec<u8>>)
        ensures
            out is Some <==> self@.storable(),
            out matches Some(b) ==> b@ == self@.row(),
    {
        let mut fields: Vec<Vec<u8>> = Vec::new();
        fields.push(text_to_bytes(&self.anchor));
        fields.push(text_to_bytes(&self.code));
        fields.push(text_to_bytes(&self.js));
        assert(fields_view(fields) =~= self@.fields());
        frame_row(&fields)
    }

    /// The record that a row holds; `None` where the row holds none.
    pub fn decode(bytes: &Vec<u8>) -> (out: Option<CodeData>)
        ensures
            out is Some <==> CodeModel::of_row(bytes@) is Some,
            out matches Some(c) ==> CodeModel::of_row(bytes@) == Some(c@),
    {
        let fields = match unframe_bytes(bytes) {
            Some(fields) => fields,
            None => return None,
        };
        if fields.len() != 3 {
            return None;
        }
        let anchor = match decode_text(&fields[0]) {
            Some(s) => s,
            None => return None,
        };
        let code = match decode_text(&fields[1]) {
            Some(s) => s,
            None => return None,
        };
        let js = match decode_text(&fields[2]) {
            Some(s) => s,
            None => return None,
        };
        Some(CodeData { anchor, code, js })
    }

    /// Whether the two records are the same code.
    pub fn same_content(&self, other: &CodeData) -> (same: bool)
        ensures
            same == self@.same_content(other@),
    {
        text_eq(&self.code, &other.code) && text_eq(&self.js, &other.js)
    }
}

impl ApiData {
    /// The row that holds the record; `None` where a field is too long to
    /// be stored.
    pub fn encode(&self) -> (out: Option<Vec<u8>>)
        ensures
            out is Some <==> self@.storable(),
            out matches Some(b) ==> b@ == self@.row(),
    {
        let mut fields: Vec<Vec<u8>> = Vec::new();
        fields.push(text_to_bytes(&self.anchor));
        fields.push(text_to_bytes(&self.content));
        assert(fields_view(fields) =~= self@.fields());
        frame_row(&fields)
    }

    /// The record that a row holds; `None` where the row holds none.
    pub fn decode(bytes: &Vec<u8>) -> (out: Option<ApiData>)
        ensures
            out is Some <==> ApiModel::of_row(bytes@) is Some,
            out matches Some(a) ==> ApiModel::of_row(bytes@) == Some(a@),
    {
        let fields = match unframe_bytes(bytes) {
            Some(fields) => fields,
            None => return None,
        };
        if fields.len() != 2 {
            return None;
        }
        let anchor = match decode_text(&fields[0]) {
            Some(s) => s,
            None => return None,
        };
        let content = match decode_text(&fields[1]) {
            Some(s) => s,
            None => return None,
        };
        Some(ApiData { anchor, content })
    }

    /// Whether the two records are the same descriptor.
    pub fn same_content(&self, other: &ApiData) -> (same: bool)
        ensures
            same == self@.same_content(other@),
    {
        text_eq(&self.content, &other.content)
    }
}

/// Whether two lists hold the same hashes in the same order.
pub fn lists_eq(a: &Vec<Vec<u8>>, b: &Vec<Vec<u8>>) -> (same: bool)
    ensures
        same == (fields_view(*a) == fields_view(*b)),
{
    if a.len() != b.len() {
        assert(fields_view(*a).len() != fields_view(*b).len());
        return false;
    }
    let mut i: usize = 0;
    while i < a.len()
        invariant
            i <= a@.len(),
            a@.len() == b@.len(),
            forall|j: int| 0 <= j < i ==> a@[j]@ == b@[j]@,
        decreases a@.len() - i,
    {
        if !bytes_eq(&a[i], &b[i]) {
            assert(fields_view(*a)[i as int] != fields_view(*b)[i as int]);
            return false;
        }
        i += 1;
    }
    assert(fields_view(*a) =~= fields_view(*b));
    true
}

impl Combined {
    /// The row that holds the bundle; `None` where a field is too long to
    /// be stored.
    pub fn encode(&self) -> (out: Option<Vec<u8>>)
        ensures
            out is Some <==> self@.storable(),
            out matches Some(b) ==> b@ == self@.row(),
    {
        let list = match encode_list(&self.components) {
            Some(list) => list,
            None => return None,
        };
        let mut fields: Vec<Vec<u8>> = Vec::new();
        fields.push(text_to_bytes(&self.anchor));
        fields.push(list);
        fields.push(encode_count(self.called));
        assert(fields_view(fields) =~= self@.fields());
        frame_row(&fields)
    }

    /// The bundle that a row holds; `None` where the row holds none.
    pub fn decode(bytes: &Vec<u8>) -> (out: Option<Combined>)
        ensures
            out is Some <==> CombinedModel::of_row(bytes@) is Some,
            out matches Some(c) ==> CombinedModel::of_row(bytes@) == Some(c@),
    {
        let fields = match unframe_bytes(bytes) {
            Some(fields) => fields,
            None => return None,
        };
        if fields.len() != 3 {
            return None;
        }
        let anchor = match decode_text(&fields[0]) {
            Some(s) => s,
            None => return None,
        };
        let components = match decode_list(&fields[1]) {
            Some(list) => list,
            None => return None,
        };
        let called = match decode_count(&fields[2]) {
            Some(n) => n,
            None => return None,
        };
        Some(Combined { anchor, components, called })
    }

    /// Whether the two bundles compose the same records.
    pub fn same_content(&self, other: &Combined) -> (same: bool)
        ensures
            same == self@.same_content(other@),
    {
        lists_eq(&self.components, &other.components)
    }
}

} // verus!
