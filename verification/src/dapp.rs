//! Deployed dapps: the record, the snapshot that the public reads, and the
//! rows that hold a record and its policy.

use vstd::prelude::*;
use crate::access::{time_model, AccessModel, AccessViewModel, DappAccess, DappAccessView};
use crate::codec::{fields_view, fits, frame, frame_row, lemma_unframe_frame, unframe, unframe_bytes};
use crate::fields::{count_field, count_of_field, decode_count, decode_opt_text, decode_opt_time, decode_text, encode_count, encode_opt_text, encode_opt_time, lemma_count_round_trip, lemma_opt_text_round_trip, lemma_opt_time_round_trip, lemma_text_field_round_trip, opt_text_field, opt_text_of_field, opt_time_field, opt_time_of_field, text_field, text_of_field};
use crate::text::text_to_bytes;
use crate::types::TimestampMills;

verus! {

/// A deployed dapp as an administrator submits and reads it.
#[derive(Debug, PartialEq, Eq)]
pub struct Dapp {
    /// The anchor that names the dapp and the instance it belongs to.
    pub id: String,
    /// What the dapp is made of.
    pub info: String,
    /// Since when the dapp is frozen; absent while it is active.
    pub frozen: Option<TimestampMills>,
    /// Why the dapp is frozen.
    pub reason: String,
    /// The policy that gates the public operations.
    pub access: DappAccess,
    /// How often the dapp was accessed.
    pub accessed: u64,
    /// How often the dapp was called.
    pub called: u64,
    /// What the dapp has collected.
    pub collected: u64,
}

/// A dapp as the public reads it.
#[derive(Debug, PartialEq, Eq)]
pub struct DappView {
    /// The anchor that names the dapp and the instance it belongs to.
    pub id: String,
    /// What the dapp is made of.
    pub info: String,
    /// The public part of the policy.
    pub access: DappAccessView,
    /// How often the dapp was accessed.
    pub accessed: u64,
    /// How often the dapp was called.
    pub called: u64,
    /// What the dapp has collected.
    pub collected: u64,
}

/// A dapp as a mathematical value.
pub struct DappModel {
    pub id: Seq<char>,
    pub info: Seq<char>,
    pub frozen: Option<i64>,
    pub reason: Seq<char>,
    pub access: AccessModel,
    pub accessed: u64,
    pub called: u64,
    pub collected: u64,
}

/// The public snapshot of a dapp as a mathematical value.
pub struct DappViewModel {
    pub id: Seq<char>,
    pub info: Seq<char>,
    pub access: AccessViewModel,
    pub accessed: u64,
    pub called: u64,
    pub collected: u64,
}

impl View for Dapp {
    type V = DappModel;

    open spec fn view(&self) -> DappModel {
        DappModel {
            id: self.id@,
            info: self.info@,
            frozen: time_model(self.frozen),
            reason: self.reason@,
            access: self.access@,
            accessed: self.accessed,
            called: self.called,
            collected: self.collected,
        }
    }
}

impl View for DappView {
    type V = DappViewModel;

    open spec fn view(&self) -> DappViewModel {
        DappViewModel {
            id: self.id@,
            info: self.info@,
            access: self.access@,
            accessed: self.accessed,
            called: self.called,
            collected: self.collected,
        }
    }
}

impl AccessModel {
    /// The fields of the row that holds the policy.
    pub open spec fn fields(self) -> Seq<Seq<u8>> {
        seq![opt_time_field(self.earliest), opt_time_field(self.latest), opt_text_field(self.token)]
    }

    /// The row that holds the policy.
    pub open spec fn row(self) -> Seq<u8> {
        frame(self.fields())
    }

    /// The policy is small enough to be stored.
    pub open spec fn storable(self) -> bool {
        fits(self.fields())
    }

    /// The policy that a list of fields holds.
    pub open spec fn of_fields(fs: Seq<Seq<u8>>) -> Option<AccessModel> {
        if fs.len() == 3 && opt_time_of_field(fs[0]) is Some && opt_time_of_field(fs[1]) is Some
            && opt_text_of_field(fs[2]) is Some {
            Some(
                AccessModel {
                    earliest: opt_time_of_field(fs[0]).unwrap(),
                    latest: opt_time_of_field(fs[1]).unwrap(),
                    token: opt_text_of_field(fs[2]).unwrap(),
                },
            )
        } else {
            None
        }
    }

    /// The policy that a row holds.
    pub open spec fn of_row(bytes: Seq<u8>) -> Option<AccessModel> {
        match unframe(bytes) {
            Some(fs) => Self::of_fields(fs),
            None => None,
        }
    }

    /// The row of a policy reads back as that policy.
    pub proof fn lemma_round_trip(self)
        requires
            self.storable(),
        ensures
            Self::of_row(self.row()) == Some(self),
    {
        lemma_unframe_frame(self.fields());
        lemma_opt_time_round_trip(self.earliest);
        lemma_opt_time_round_trip(self.latest);
        lemma_opt_text_round_trip(self.token);
    }
}

impl DappModel {
    /// The fields of the row that holds the dapp.
    pub open spec fn fields(self) -> Seq<Seq<u8>> {
        seq![
            text_field(self.id),
            text_field(self.info),
            opt_time_field(self.frozen),
            text_field(self.reason),
            opt_time_field(self.access.earliest),
            opt_time_field(self.access.latest),
            opt_text_field(self.access.token),
            count_field(self.accessed),
            count_field(self.called),
            count_field(self.collected),
        ]
    }

    /// The row that holds the dapp.
    pub open spec fn row(self) -> Seq<u8> {
        frame(self.fields())
    }

    /// The dapp and its policy are small enough to be stored.
    pub open spec fn storable(self) -> bool {
        fits(self.fields()) && self.access.storable()
    }

    /// The dapp that a list of fields holds.
    pub open spec fn of_fields(fs: Seq<Seq<u8>>) -> Option<DappModel> {
        if fs.len() == 10 && text_of_field(fs[0]) is Some && text_of_field(fs[1]) is Some && opt_time_of_field(
            fs[2],
        ) is Some && text_of_field(fs[3]) is Some && opt_time_of_field(fs[4]) is Some && opt_time_of_field(
            fs[5],
        ) is Some && opt_text_of_field(fs[6]) is Some && count_of_field(fs[7]) is Some && count_of_field(
            fs[8],
        ) is Some && count_of_field(fs[9]) is Some {
            Some(
                DappModel {
                    id: text_of_field(fs[0]).unwrap(),
                    info: text_of_field(fs[1]).unwrap(),
                    frozen: opt_time_of_field(fs[2]).unwrap(),
                    reason: text_of_field(fs[3]).unwrap(),
                    access: AccessModel {
                        earliest: opt_time_of_field(fs[4]).unwrap(),
                        latest: opt_time_of_field(fs[5]).unwrap(),
                        token: opt_text_of_field(fs[6]).unwrap(),
                    },
                    accessed: count_of_field(fs[7]).unwrap(),
                    called: count_of_field(fs[8]).unwrap(),
                    collected: count_of_field(fs[9]).unwrap(),
                },
            )
        } else {
            None
        }
    }

    /// The dapp that a row holds.
    pub open spec fn of_row(bytes: Seq<u8>) -> Option<DappModel> {
        match unframe(bytes) {
            Some(fs) => Self::of_fields(fs),
            None => None,
        }
    }

    /// The dapp with its policy and its three counters replaced.
    pub open spec fn spliced(self, access: AccessModel, accessed: u64, called: u64, collected: u64) -> DappModel {
        DappModel { access, accessed, called, collected, ..self }
    }

    /// The snapshot that the public reads.
    pub open spec fn public(self) -> DappViewModel {
        DappViewModel {
            id: self.id,
            info: self.info,
            access: self.access.public(),
            accessed: self.accessed,
            called: self.called,
            collected: self.collected,
        }
    }

    /// The fields of a dapp read back as that dapp.
    pub proof fn lemma_fields_read_back(self)
        ensures
            Self::of_fields(self.fields()) == Some(self),
    {
        let fs = self.fields();
        lemma_text_field_round_trip(self.id);
        lemma_text_field_round_trip(self.info);
        lemma_opt_time_round_trip(self.frozen);
        lemma_text_field_round_trip(self.reason);
        lemma_opt_time_round_trip(self.access.earliest);
        lemma_opt_time_round_trip(self.access.latest);
        lemma_opt_text_round_trip(self.access.token);
        lemma_count_round_trip(self.accessed);
        lemma_count_round_trip(self.called);
        lemma_count_round_trip(self.collected);
        assert(text_of_field(fs[0]) == Some(self.id));
        assert(text_of_field(fs[1]) == Some(self.info));
        assert(opt_time_of_field(fs[2]) == Some(self.frozen));
        assert(text_of_field(fs[3]) == Some(self.reason));
        assert(opt_time_of_field(fs[4]) == Some(self.access.earliest));
        assert(opt_time_of_field(fs[5]) == Some(self.access.latest));
        assert(opt_text_of_field(fs[6]) == Some(self.access.token));
        assert(count_of_field(fs[7]) == Some(self.accessed));
        assert(count_of_field(fs[8]) == Some(self.called));
        assert(count_of_field(fs[9]) == Some(self.collected));
    }

    /// The row of a dapp reads back as that dapp.
    pub proof fn lemma_round_trip(self)
        requires
            self.storable(),
        ensures
            Self::of_row(self.row()) == Some(self),
    {
        lemma_unframe_frame(self.fields());
        self.lemma_fields_read_back();
    }
}

impl DappAccess {
    /// The row that holds the policy; `None` where the token is too long
    /// to be stored.
    pub fn encode(&self) -> (out: Option<Vec<u8>>)
        ensures
            out is Some <==> self@.storable(),
            out matches Some(b) ==> b@ == self@.row(),
    {
        let mut fields: Vec<Vec<u8>> = Vec::new();
        fields.push(encode_opt_time(&self.earliest));
        fields.push(encode_opt_time(&self.latest));
        fields.push(encode_opt_text(&self.token));
        assert(fields_view(fields) =~= self@.fields());
        frame_row(&fields)
    }

    /// The policy that a row holds; `None` where the row holds none.
    pub fn decode(bytes: &Vec<u8>) -> (out: Option<DappAccess>)
        ensures
            out is Some <==> AccessModel::of_row(bytes@) is Some,
            out matches Some(a) ==> AccessModel::of_row(bytes@) == Some(a@),
    {
        let fields = match unframe_bytes(bytes) {
            Some(fields) => fields,
            None => return None,
        };
        if fields.len() != 3 {
            return None;
        }
        let earliest = match decode_opt_time(&fields[0]) {
            Some(t) => t,
            None => return None,
        };
        let latest = match decode_opt_time(&fields[1]) {
            Some(t) => t,
            None => return None,
        };
        let token = match decode_opt_text(&fields[2]) {
            Some(t) => t,
            None => return None,
        };
        Some(DappAccess { earliest, latest, token })
    }
}

impl Dapp {
    /// The row that holds the dapp; `None` where a field is too long to be
    /// stored.
    pub fn encode(&self) -> (out: Option<Vec<u8>>)
        ensures
            out is Some <==> fits(self@.fields()),
            out matches Some(b) ==> b@ == self@.row(),
    {
        let mut fields: Vec<Vec<u8>> = Vec::new();
        fields.push(text_to_bytes(&self.id));
        fields.push(text_to_bytes(&self.info));
        fields.push(encode_opt_time(&self.frozen));
        fields.push(text_to_bytes(&self.reason));
        fields.push(encode_opt_time(&self.access.earliest));
        fields.push(encode_opt_time(&self.access.latest));
        fields.push(encode_opt_text(&self.access.token));
        fields.push(encode_count(self.accessed));
        fields.push(encode_count(self.called));
        fields.push(encode_count(self.collected));
        assert(fields_view(fields) =~= self@.fields());
        frame_row(&fields)
    }

    /// The dapp that a row holds; `None` where the row holds none.
    pub fn decode(bytes: &Vec<u8>) -> (out: Option<Dapp>)
        ensures
            out is Some <==> DappModel::of_row(bytes@) is Some,
            out matches Some(d) ==> DappModel::of_row(bytes@) == Some(d@),
    {
        let fields = match unframe_bytes(bytes) {
            Some(fields) => fields,
            None => return None,
        };
        if fields.len() != 10 {
            return None;
        }
        let id = match decode_text(&fields[0]) {
            Some(s) => s,
            None => return None,
        };
        let info = match decode_text(&fields[1]) {
            Some(s) => s,
            None => return None,
        };
        let frozen = match decode_opt_time(&fields[2]) {
            Some(t) => t,
            None => return None,
        };
        let reason = match decode_text(&fields[3]) {
            Some(s) => s,
            None => return None,
        };
        let earliest = match decode_opt_time(&fields[4]) {
            Some(t) => t,
            None => return None,
        };
        let latest = match decode_opt_time(&fields[5]) {
            Some(t) => t,
            None => return None,
        };
        let token = match decode_opt_text(&fields[6]) {
            Some(t) => t,
            None => return None,
        };
        let accessed = match decode_count(&fields[7]) {
            Some(n) => n,
            None => return None,
        };
        let called = match decode_count(&fields[8]) {
            Some(n) => n,
            None => return None,
        };
        let collected = match decode_count(&fields[9]) {
            Some(n) => n,
            None => return None,
        };
        Some(Dapp { id, info, frozen, reason, access: DappAccess { earliest, latest, token }, accessed, called, collected })
    }

    /// The snapshot that the public reads.
    pub fn into_view(self) -> (view: DappView)
        ensures
            view@ == self@.public(),
    {
        let access = self.access.to_view();
        DappView {
            id: self.id,
            info: self.info,
            access,
            accessed: self.accessed,
            called: self.called,
            collected: self.collected,
        }
    }
}

} // verus!
