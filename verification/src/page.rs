//! The record mapping contract and the page envelope.
//!
//! A caller's data type takes part in listing, create and update by
//! implementing [`Record`]: it must carry the identifier the remote service
//! assigns and expose it for reading and writing. One page of a listing
//! response decodes to a [`RecordPage`]: an ordered sequence of envelopes
//! (identifier plus fields payload) and the cursor for the next page, where
//! an empty cursor means the listing is complete.

use vstd::prelude::*;

verus! {

/// The capability a caller's data type must provide: a service-assigned
/// identifier that can be read and overwritten. The identifier is empty
/// before the record first exists remotely.
pub trait Record: Sized {
    /// The identifier the record currently carries.
    spec fn id_model(&self) -> String;

    /// The same record value with its identifier replaced by `id` and all
    /// other content unchanged.
    spec fn with_id(&self, id: String) -> Self;

    /// Overwrite the record's identifier.
    fn set_id(&mut self, id: String)
        ensures
            *final(self) == old(self).with_id(id),
            final(self).id_model() == id,
    ;

    /// Read the record's identifier.
    fn id(&self) -> (r: &str)
        ensures
            r@ == self.id_model()@,
    ;
}

/// One record envelope as the listing endpoint returns it: the
/// service-assigned identifier beside the caller-shaped fields payload.
pub struct SRecord<T> {
    pub id: String,
    pub fields: T,
}

/// One decoded page of a listing response: the envelopes of the page in
/// server order, and the cursor at which the next page resumes. An empty
/// `offset` means this was the final page.
pub struct RecordPage<T> {
    pub records: Vec<SRecord<T>>,
    pub offset: String,
}

/// The records a sequence of envelopes decodes to: each fields payload with
/// its identifier overwritten by the envelope's `id`, in envelope order.
pub open spec fn decoded_records<T: Record>(rs: Seq<SRecord<T>>) -> Seq<T>
    decreases rs.len(),
{
    if rs.len() == 0 {
        Seq::empty()
    } else {
        seq![rs[0].fields.with_id(rs[0].id)] + decoded_records(rs.skip(1))
    }
}

/// Decoding keeps the page length: one record per envelope, none dropped,
/// none duplicated.
pub proof fn lemma_decoded_records_len<T: Record>(rs: Seq<SRecord<T>>)
    ensures
        decoded_records(rs).len() == rs.len(),
    decreases rs.len(),
{
    if rs.len() > 0 {
        lemma_decoded_records_len(rs.skip(1));
    }
}

/// The record at position `i` of a decoded page is the fields payload of
/// the envelope at position `i`, with that envelope's identifier set.
pub proof fn lemma_decoded_records_index<T: Record>(rs: Seq<SRecord<T>>, i: int)
    requires
        0 <= i < rs.len(),
    ensures
        decoded_records(rs).len() == rs.len(),
        decoded_records(rs)[i] == rs[i].fields.with_id(rs[i].id),
    decreases rs.len(),
{
    lemma_decoded_records_len(rs);
    if i > 0 {
        lemma_decoded_records_index(rs.skip(1), i - 1);
    }
}

/// Turn the envelopes of one page into caller records, in order: each
/// envelope's fields payload gets the envelope's `id` written into its
/// identifier slot.
pub fn into_records<T: Record>(records: Vec<SRecord<T>>) -> (out: Vec<T>)
    ensures
        out@ == decoded_records(records@),
        out@.len() == records@.len(),
        forall|i: int|
            0 <= i < out@.len() ==> #[trigger] out@[i].id_model() == records@[i].id,
{
    let ghost orig = records@;
    let mut rest = records;
    let mut out: Vec<T> = Vec::new();
    while rest.len() > 0
        invariant
            out@.len() + rest@.len() == orig.len(),
            rest@ == orig.skip(out@.len() as int),
            forall|i: int|
                0 <= i < out@.len() ==> #[trigger] out@[i] == orig[i].fields.with_id(orig[i].id),
            forall|i: int|
                0 <= i < out@.len() ==> #[trigger] out@[i].id_model() == orig[i].id,
        decreases rest.len(),
    {
        let ghost k = out@.len() as int;
        let env = rest.remove(0);
        proof {
            assert(env == orig[k]);
            assert(rest@ =~= orig.skip(k + 1));
        }
        let mut t = env.fields;
        t.set_id(env.id);
        out.push(t);
    }
    proof {
        assert forall|i: int| 0 <= i < orig.len() implies #[trigger] decoded_records(orig)[i]
            == orig[i].fields.with_id(orig[i].id) by {
            lemma_decoded_records_index(orig, i);
        }
        lemma_decoded_records_len(orig);
        assert(out@ =~= decoded_records(orig));
    }
    out
}

} // verus!
