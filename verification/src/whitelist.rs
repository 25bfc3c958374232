//! The MRENCLAVE whitelist: concatenated enclave measurements that the
//! attestation collaborator accepts, maintained by root calls.
use vstd::prelude::*;
use crate::error::Error;
use crate::events::Event;
use crate::state::{Phala, PhalaView};

verus! {

broadcast use vstd::std_specs::hash::group_hash_axioms, vstd::set::group_set_axioms;

/// The whitelist record of one enclave: measurement, product id, security
/// version and signer, in that order.
pub open spec fn enclave_record(
    mr_enclave: Seq<u8>,
    mr_signer: Seq<u8>,
    isv_prod_id: Seq<u8>,
    isv_svn: Seq<u8>,
) -> Seq<u8> {
    mr_enclave + isv_prod_id + isv_svn + mr_signer
}

/// What adding `rec` to the whitelist leaves behind: a duplicate is
/// rejected untouched; otherwise the record is appended and announced.
pub open spec fn add_whitelist_post(
    pre: PhalaView,
    post: PhalaView,
    r: Result<(), Error>,
    rec: Seq<u8>,
) -> bool {
    if pre.mr_enclave_whitelist.contains(rec) {
        &&& r == Result::<(), Error>::Err(Error::MREnclaveAlreadyExist)
        &&& post == pre
    } else {
        &&& r == Result::<(), Error>::Ok(())
        &&& post.mr_enclave_whitelist == pre.mr_enclave_whitelist.push(rec)
        &&& post.events.len() == pre.events.len() + 1
        &&& post.events.take(pre.events.len() as int) == pre.events
        &&& post.events.last() matches Event::WhitelistAdded(v) && v@ == rec
        &&& post == (PhalaView {
            mr_enclave_whitelist: post.mr_enclave_whitelist,
            events: post.events,
            ..pre
        })
    }
}

/// What removing `rec` from the whitelist leaves behind: an unknown record
/// is rejected untouched; otherwise its first occurrence goes and the
/// removal is announced.
pub open spec fn remove_whitelist_post(
    pre: PhalaView,
    post: PhalaView,
    r: Result<(), Error>,
    rec: Seq<u8>,
) -> bool {
    if pre.mr_enclave_whitelist.contains(rec) {
        &&& r == Result::<(), Error>::Ok(())
        &&& exists|idx: int|
            {
                &&& 0 <= idx < pre.mr_enclave_whitelist.len()
                &&& pre.mr_enclave_whitelist[idx] == rec
                &&& forall|j: int| 0 <= j < idx ==> pre.mr_enclave_whitelist[j] != rec
                &&& post.mr_enclave_whitelist == pre.mr_enclave_whitelist.remove(idx)
            }
        &&& post.events.len() == pre.events.len() + 1
        &&& post.events.take(pre.events.len() as int) == pre.events
        &&& post.events.last() matches Event::WhitelistRemoved(v) && v@ == rec
        &&& post == (PhalaView {
            mr_enclave_whitelist: post.mr_enclave_whitelist,
            events: post.events,
            ..pre
        })
    } else {
        &&& r == Result::<(), Error>::Err(Error::MREnclaveNotFound)
        &&& post == pre
    }
}

/// What removing the whitelist entry at `index` leaves behind: an index
/// out of range is rejected untouched.
pub open spec fn remove_whitelist_at_post(
    pre: PhalaView,
    post: PhalaView,
    r: Result<(), Error>,
    index: int,
) -> bool {
    if 0 <= index < pre.mr_enclave_whitelist.len() {
        &&& r == Result::<(), Error>::Ok(())
        &&& post.mr_enclave_whitelist == pre.mr_enclave_whitelist.remove(index)
        &&& post.events.len() == pre.events.len() + 1
        &&& post.events.take(pre.events.len() as int) == pre.events
        &&& post.events.last() matches Event::WhitelistRemoved(v) && v@
            == pre.mr_enclave_whitelist[index]
        &&& post == (PhalaView {
            mr_enclave_whitelist: post.mr_enclave_whitelist,
            events: post.events,
            ..pre
        })
    } else {
        &&& r == Result::<(), Error>::Err(Error::WrongWhitelistIndex)
        &&& post == pre
    }
}

/// Whether the four raw measurement fields have their required lengths.
pub open spec fn enclave_input_lengths_ok(
    mr_enclave: Seq<u8>,
    mr_signer: Seq<u8>,
    isv_prod_id: Seq<u8>,
    isv_svn: Seq<u8>,
) -> bool {
    mr_enclave.len() == 32 && mr_signer.len() == 32 && isv_prod_id.len() == 2 && isv_svn.len()
        == 2
}

/// Appends all of `src` to `dst`.
fn append_bytes(dst: &mut Vec<u8>, src: &[u8])
    ensures
        final(dst)@ == old(dst)@ + src@,
{
    let n = src.len();
    let mut i: usize = 0;
    while i < n
        invariant
            i <= n,
            n == src@.len(),
            dst@ == old(dst)@ + src@.take(i as int),
        decreases n - i,
    {
        dst.push(src[i]);
        proof {
            assert(old(dst)@ + src@.take(i as int) + seq![src@[i as int]] =~= old(dst)@
                + src@.take(i as int + 1));
        }
        i = i + 1;
    }
    proof {
        assert(src@.take(n as int) =~= src@);
    }
}

/// Whether two byte vectors hold the same bytes.
fn bytes_eq(a: &Vec<u8>, b: &Vec<u8>) -> (r: bool)
    ensures
        r == (a@ == b@),
{
    if a.len() != b.len() {
        return false;
    }
    let n = a.len();
    let mut i: usize = 0;
    while i < n
        invariant
            i <= n,
            n == a@.len() == b@.len(),
            forall|j: int| 0 <= j < i ==> a@[j] == b@[j],
        decreases n - i,
    {
        if a[i] != b[i] {
            return false;
        }
        i = i + 1;
    }
    proof {
        assert(a@ =~= b@);
    }
    true
}

/// Copies a byte vector.
fn clone_bytes(v: &Vec<u8>) -> (r: Vec<u8>)
    ensures
        r@ == v@,
{
    let n = v.len();
    let mut r: Vec<u8> = Vec::new();
    let mut i: usize = 0;
    while i < n
        invariant
            i <= n,
            n == v@.len(),
            r@ == v@.take(i as int),
        decreases n - i,
    {
        r.push(v[i]);
        proof {
            assert(v@.take(i as int) + seq![v@[i as int]] =~= v@.take(i as int + 1));
        }
        i = i + 1;
    }
    proof {
        assert(v@.take(n as int) =~= v@);
    }
    r
}

impl Phala {
    /// Builds the whitelist record of one enclave.
    pub fn extend_mrenclave(
        mr_enclave: &[u8],
        mr_signer: &[u8],
        isv_prod_id: &[u8],
        isv_svn: &[u8],
    ) -> (r: Vec<u8>)
        ensures
            r@ == enclave_record(mr_enclave@, mr_signer@, isv_prod_id@, isv_svn@),
    {
        let mut t_mrenclave: Vec<u8> = Vec::new();
        append_bytes(&mut t_mrenclave, mr_enclave);
        append_bytes(&mut t_mrenclave, isv_prod_id);
        append_bytes(&mut t_mrenclave, isv_svn);
        append_bytes(&mut t_mrenclave, mr_signer);
        t_mrenclave
    }

    /// Adds an enclave record to the whitelist, rejecting duplicates
    /// untouched.
    pub fn add_mrenclave_to_whitelist(
        &mut self,
        mr_enclave: &[u8],
        mr_signer: &[u8],
        isv_prod_id: &[u8],
        isv_svn: &[u8],
    ) -> (r: Result<(), Error>)
        ensures
            add_whitelist_post(
                old(self)@,
                final(self)@,
                r,
                enclave_record(mr_enclave@, mr_signer@, isv_prod_id@, isv_svn@),
            ),
            old(self)@.wf() ==> final(self)@.wf(),
    {
        let white_mrenclave = Self::extend_mrenclave(mr_enclave, mr_signer, isv_prod_id, isv_svn);
        let ghost rec = white_mrenclave@;
        let n = self.mr_enclave_whitelist.len();
        let mut i: usize = 0;
        while i < n
            invariant
                i <= n,
                n == self@.mr_enclave_whitelist.len(),
                white_mrenclave@ == rec,
                rec == enclave_record(mr_enclave@, mr_signer@, isv_prod_id@, isv_svn@),
                self == old(self),
                forall|j: int| 0 <= j < i ==> self@.mr_enclave_whitelist[j] != rec,
            decreases n - i,
        {
            if bytes_eq(&self.mr_enclave_whitelist[i], &white_mrenclave) {
                proof {
                    assert(old(self)@.mr_enclave_whitelist.contains(rec)) by {
                        assert(old(self)@.mr_enclave_whitelist[i as int] == rec);
                    }
                }
                return Err(Error::MREnclaveAlreadyExist);
            }
            i = i + 1;
        }
        assert(!self@.mr_enclave_whitelist.contains(rec));
        let record_copy = clone_bytes(&white_mrenclave);
        self.mr_enclave_whitelist.push(record_copy);
        self.events.push(Event::WhitelistAdded(white_mrenclave));
        proof {
            assert(self@.mr_enclave_whitelist =~= old(self)@.mr_enclave_whitelist.push(rec));
            assert(self@.events.take(old(self)@.events.len() as int) =~= old(self)@.events);
            assert(self@ =~= (PhalaView {
                mr_enclave_whitelist: self@.mr_enclave_whitelist,
                events: self@.events,
                ..old(self)@
            }));
        }
        Ok(())
    }

    /// Removes the first whitelist entry equal to the given enclave
    /// record, or rejects an unknown record untouched.
    pub fn remove_mrenclave_from_whitelist_by_raw_data(
        &mut self,
        mr_enclave: &[u8],
        mr_signer: &[u8],
        isv_prod_id: &[u8],
        isv_svn: &[u8],
    ) -> (r: Result<(), Error>)
        ensures
            remove_whitelist_post(
                old(self)@,
                final(self)@,
                r,
                enclave_record(mr_enclave@, mr_signer@, isv_prod_id@, isv_svn@),
            ),
            old(self)@.wf() ==> final(self)@.wf(),
    {
        let t_mrenclave = Self::extend_mrenclave(mr_enclave, mr_signer, isv_prod_id, isv_svn);
        let ghost rec = t_mrenclave@;
        let n = self.mr_enclave_whitelist.len();
        let mut i: usize = 0;
        while i < n
            invariant
                i <= n,
                n == self@.mr_enclave_whitelist.len(),
                t_mrenclave@ == rec,
                rec == enclave_record(mr_enclave@, mr_signer@, isv_prod_id@, isv_svn@),
                self == old(self),
                forall|j: int| 0 <= j < i ==> self@.mr_enclave_whitelist[j] != rec,
            decreases n - i,
        {
            if bytes_eq(&self.mr_enclave_whitelist[i], &t_mrenclave) {
                let ghost idx = i as int;
                self.mr_enclave_whitelist.remove(i);
                self.events.push(Event::WhitelistRemoved(t_mrenclave));
                proof {
                    assert(old(self)@.mr_enclave_whitelist.contains(rec)) by {
                        assert(old(self)@.mr_enclave_whitelist[idx] == rec);
                    }
                    assert(self@.mr_enclave_whitelist =~= old(
                        self,
                    )@.mr_enclave_whitelist.remove(idx));
                    assert(self@.events.take(old(self)@.events.len() as int) =~= old(
                        self,
                    )@.events);
                    assert(self@ =~= (PhalaView {
                        mr_enclave_whitelist: self@.mr_enclave_whitelist,
                        events: self@.events,
                        ..old(self)@
                    }));
                }
                return Ok(());
            }
            i = i + 1;
        }
        proof {
            if old(self)@.mr_enclave_whitelist.contains(rec) {
                let witness = choose|j: int|
                    0 <= j < old(self)@.mr_enclave_whitelist.len() && old(
                        self,
                    )@.mr_enclave_whitelist[j] == rec;
                assert(false);
            }
        }
        Err(Error::MREnclaveNotFound)
    }

    /// Removes a whitelist entry by position, or rejects an out-of-range
    /// index untouched.
    pub fn remove_mrenclave_from_whitelist_by_index(&mut self, index: usize) -> (r: Result<
        (),
        Error,
    >)
        ensures
            remove_whitelist_at_post(old(self)@, final(self)@, r, index as int),
            old(self)@.wf() ==> final(self)@.wf(),
    {
        if index >= self.mr_enclave_whitelist.len() {
            return Err(Error::WrongWhitelistIndex);
        }
        let t_mrenclave = clone_bytes(&self.mr_enclave_whitelist[index]);
        self.mr_enclave_whitelist.remove(index);
        self.events.push(Event::WhitelistRemoved(t_mrenclave));
        proof {
            assert(self@.mr_enclave_whitelist =~= old(self)@.mr_enclave_whitelist.remove(
                index as int,
            ));
            assert(self@.events.take(old(self)@.events.len() as int) =~= old(self)@.events);
            assert(self@ =~= (PhalaView {
                mr_enclave_whitelist: self@.mr_enclave_whitelist,
                events: self@.events,
                ..old(self)@
            }));
        }
        Ok(())
    }

    /// Root call: whitelists an enclave after checking the raw input
    /// lengths.
    pub fn add_mrenclave(
        &mut self,
        mr_enclave: &[u8],
        mr_signer: &[u8],
        isv_prod_id: &[u8],
        isv_svn: &[u8],
    ) -> (r: Result<(), Error>)
        ensures
            !enclave_input_lengths_ok(mr_enclave@, mr_signer@, isv_prod_id@, isv_svn@) ==> r
                == Result::<(), Error>::Err(Error::InvalidInputBadLength) && final(self)@ == old(
                self,
            )@,
            enclave_input_lengths_ok(mr_enclave@, mr_signer@, isv_prod_id@, isv_svn@)
                ==> add_whitelist_post(
                old(self)@,
                final(self)@,
                r,
                enclave_record(mr_enclave@, mr_signer@, isv_prod_id@, isv_svn@),
            ),
            old(self)@.wf() ==> final(self)@.wf(),
    {
        if !(mr_enclave.len() == 32 && mr_signer.len() == 32 && isv_prod_id.len() == 2
            && isv_svn.len() == 2) {
            return Err(Error::InvalidInputBadLength);
        }
        self.add_mrenclave_to_whitelist(mr_enclave, mr_signer, isv_prod_id, isv_svn)
    }

    /// Root call: removes a whitelisted enclave given the raw measurement
    /// data, after checking the input lengths.
    pub fn remove_mrenclave_by_raw_data(
        &mut self,
        mr_enclave: &[u8],
        mr_signer: &[u8],
        isv_prod_id: &[u8],
        isv_svn: &[u8],
    ) -> (r: Result<(), Error>)
        ensures
            !enclave_input_lengths_ok(mr_enclave@, mr_signer@, isv_prod_id@, isv_svn@) ==> r
                == Result::<(), Error>::Err(Error::InvalidInputBadLength) && final(self)@ == old(
                self,
            )@,
            enclave_input_lengths_ok(mr_enclave@, mr_signer@, isv_prod_id@, isv_svn@)
                ==> remove_whitelist_post(
                old(self)@,
                final(self)@,
                r,
                enclave_record(mr_enclave@, mr_signer@, isv_prod_id@, isv_svn@),
            ),
            old(self)@.wf() ==> final(self)@.wf(),
    {
        if !(mr_enclave.len() == 32 && mr_signer.len() == 32 && isv_prod_id.len() == 2
            && isv_svn.len() == 2) {
            return Err(Error::InvalidInputBadLength);
        }
        self.remove_mrenclave_from_whitelist_by_raw_data(mr_enclave, mr_signer, isv_prod_id,
            isv_svn)
    }

    /// Root call: removes a whitelisted enclave by index.
    pub fn remove_mrenclave_by_index(&mut self, index: usize) -> (r: Result<(), Error>)
        ensures
            remove_whitelist_at_post(old(self)@, final(self)@, r, index as int),
            old(self)@.wf() ==> final(self)@.wf(),
    {
        self.remove_mrenclave_from_whitelist_by_index(index)
    }
}

} // verus!
