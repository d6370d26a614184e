//! The registry facade: validation, signing, storage and verification of
//! per-account document records, and construction of peer-notification
//! events.

use vstd::prelude::*;
use vstd::pervasive::VecAdditionalExecFns;
use crate::account::AccountId;
use crate::keystore::{
    authority_public_key, check_signature, public_key_of, resolved_public_key, sign_message,
    signature_accepted, RegistryError, Signature,
};
use crate::policy::ValidationPolicy;

verus! {

/// The mathematical picture of a stored record: its content bytes, the
/// validity verdict snapshotted at insertion time, and the signature bytes
/// where the registry variant signs.
pub struct DocumentView {
    pub content: Seq<u8>,
    pub is_valid: bool,
    pub signature: Option<Seq<u8>>,
}

/// A stored document record. `is_valid` is the validation policy's verdict at
/// insertion time; it is a snapshot, never recomputed. `signature` is present
/// only in the signature-bearing registry variant and is produced once, at
/// insertion, over exactly the `content` bytes of the same record.
pub struct Document {
    pub content: Vec<u8>,
    pub is_valid: bool,
    pub signature: Option<Signature>,
}

impl View for Document {
    type V = DocumentView;

    open spec fn view(&self) -> DocumentView {
        DocumentView {
            content: self.content@,
            is_valid: self.is_valid,
            signature: match self.signature {
                Some(s) => Some(s@),
                None => None,
            },
        }
    }
}

/// The event a registry constructs to inform a peer registry about an
/// upload. Dispatch to the hosting environment's event channel is the
/// caller's concern; the event itself is a plain value.
pub struct NotifyPaymentMethods {
    pub sender: AccountId,
    pub other_contract: AccountId,
}

/// The record stored for `account`: the first entry of `s` whose key names
/// that account, if any.
pub open spec fn find_doc(s: Seq<(AccountId, Document)>, account: Seq<u8>) -> Option<DocumentView>
    decreases s.len(),
{
    if s.len() == 0 {
        None
    } else if s[0].0@ == account {
        Some(s[0].1@)
    } else {
        find_doc(s.subrange(1, s.len() as int), account)
    }
}

proof fn lemma_find_doc_skip(s: Seq<(AccountId, Document)>, k: Seq<u8>, i: int)
    requires
        0 <= i <= s.len(),
        forall|j: int| 0 <= j < i ==> (#[trigger] s[j]).0@ != k,
    ensures
        find_doc(s, k) == find_doc(s.subrange(i, s.len() as int), k),
    decreases i,
{
    if i == 0 {
        assert(s.subrange(0, s.len() as int) =~= s);
    } else {
        let t = s.subrange(1, s.len() as int);
        assert(forall|j: int| 0 <= j < i - 1 ==> (#[trigger] t[j]).0@ != k);
        lemma_find_doc_skip(t, k, i - 1);
        assert(t.subrange(i - 1, t.len() as int) =~= s.subrange(i, s.len() as int));
    }
}

proof fn lemma_find_doc_update_found(s: Seq<(AccountId, Document)>, i: int, e: (AccountId, Document))
    requires
        0 <= i < s.len(),
        forall|j: int| 0 <= j < i ==> (#[trigger] s[j]).0@ != e.0@,
    ensures
        find_doc(s.update(i, e), e.0@) == Some(e.1@),
{
    let u = s.update(i, e);
    assert(forall|j: int| 0 <= j < i ==> (#[trigger] u[j]).0@ != e.0@);
    lemma_find_doc_skip(u, e.0@, i);
    assert(u.subrange(i, u.len() as int)[0] == e);
}

proof fn lemma_find_doc_update_other(
    s: Seq<(AccountId, Document)>,
    i: int,
    e: (AccountId, Document),
    k: Seq<u8>,
)
    requires
        0 <= i < s.len(),
        s[i].0@ == e.0@,
        k != e.0@,
    ensures
        find_doc(s.update(i, e), k) == find_doc(s, k),
    decreases s.len(),
{
    let u = s.update(i, e);
    if i == 0 {
        assert(u.subrange(1, u.len() as int) =~= s.subrange(1, s.len() as int));
    } else {
        assert(u[0] == s[0]);
        if s[0].0@ != k {
            let t = s.subrange(1, s.len() as int);
            assert(u.subrange(1, u.len() as int) =~= t.update(i - 1, e));
            lemma_find_doc_update_other(t, i - 1, e, k);
        }
    }
}

proof fn lemma_find_doc_push_found(s: Seq<(AccountId, Document)>, e: (AccountId, Document))
    requires
        forall|j: int| 0 <= j < s.len() ==> (#[trigger] s[j]).0@ != e.0@,
    ensures
        find_doc(s.push(e), e.0@) == Some(e.1@),
{
    let u = s.push(e);
    assert(forall|j: int| 0 <= j < s.len() ==> (#[trigger] u[j]).0@ != e.0@);
    lemma_find_doc_skip(u, e.0@, s.len() as int);
    assert(u.subrange(s.len() as int, u.len() as int)[0] == e);
}

proof fn lemma_find_doc_push_other(s: Seq<(AccountId, Document)>, e: (AccountId, Document), k: Seq<u8>)
    requires
        k != e.0@,
    ensures
        find_doc(s.push(e), k) == find_doc(s, k),
    decreases s.len(),
{
    let u = s.push(e);
    if s.len() == 0 {
        assert(u[0] == e);
        assert(u.subrange(1, 1) =~= Seq::<(AccountId, Document)>::empty());
        assert(find_doc(u, k) == find_doc(u.subrange(1, 1), k));
    } else {
        assert(u[0] == s[0]);
        if s[0].0@ != k {
            let t = s.subrange(1, s.len() as int);
            assert(u.subrange(1, u.len() as int) =~= t.push(e));
            lemma_find_doc_push_other(t, e, k);
        }
    }
}

/// The registry state: a designated owner, fixed at creation; the capability
/// flag saying whether this variant signs uploads; the validation policy; and
/// the documents mapping, holding at most one record per account.
pub struct DocumentContract<P> {
    documents: Vec<(AccountId, Document)>,
    owner: AccountId,
    signing: bool,
    policy: P,
}

/// How one upload by `caller` of `content` relates a registry state to its
/// successor: the caller's slot holds a fresh record snapshotting the
/// policy's verdict, signed by the authority exactly when the variant signs,
/// and every other slot, the owner, the flag and the policy are unchanged.
pub open spec fn uploaded<P: ValidationPolicy>(
    pre: DocumentContract<P>,
    post: DocumentContract<P>,
    caller: Seq<u8>,
    content: Seq<u8>,
) -> bool {
    &&& post.spec_owner() == pre.spec_owner()
    &&& post.spec_signing() == pre.spec_signing()
    &&& post.spec_policy() == pre.spec_policy()
    &&& (match post.record(caller) {
        Some(d) => {
            &&& d.content == content
            &&& d.is_valid == pre.spec_policy().accepts(content)
            &&& (match d.signature {
                Some(sig) => pre.spec_signing() && signature_accepted(
                    authority_public_key(pre.spec_owner()),
                    content,
                    sig,
                ),
                None => !pre.spec_signing(),
            })
        },
        None => false,
    })
    &&& forall|a: Seq<u8>|
        a != caller ==> (#[trigger] post.record(a)) == pre.record(a)
}

impl<P: ValidationPolicy> DocumentContract<P> {
    /// The owner identity fixed at creation.
    pub closed spec fn spec_owner(self) -> Seq<u8> {
        self.owner@
    }

    /// Whether this registry variant signs uploaded content.
    pub closed spec fn spec_signing(self) -> bool {
        self.signing
    }

    /// The validation policy this registry runs at insertion time.
    pub closed spec fn spec_policy(self) -> P {
        self.policy
    }

    /// The record currently stored for `account`, if any.
    pub closed spec fn record(self, account: Seq<u8>) -> Option<DocumentView> {
        find_doc(self.documents@, account)
    }

    /// Whether the stored signature for `account` checks out against the
    /// stored content under the key resolved for that account. An absent
    /// record or an unsigned record reports `false`.
    pub open spec fn spec_verify(self, account: Seq<u8>) -> bool {
        match self.record(account) {
            None => false,
            Some(d) => match d.signature {
                None => false,
                Some(sig) => signature_accepted(
                    resolved_public_key(self.spec_owner(), account),
                    d.content,
                    sig,
                ),
            },
        }
    }

    /// Creates a registry with an empty documents mapping. Always succeeds.
    pub fn new(owner: AccountId, signing: bool, policy: P) -> (c: DocumentContract<P>)
        ensures
            c.spec_owner() == owner@,
            c.spec_signing() == signing,
            c.spec_policy() == policy,
            forall|a: Seq<u8>| (#[trigger] c.record(a)) is None,
    {
        DocumentContract { documents: Vec::new(), owner, signing, policy }
    }

    /// The index of the first entry naming `account`, if any.
    fn find_index(&self, account: &AccountId) -> (r: Option<usize>)
        ensures
            match r {
                Some(i) => {
                    &&& i < self.documents@.len()
                    &&& self.documents@[i as int].0@ == account@
                    &&& forall|j: int|
                        0 <= j < i ==> (#[trigger] self.documents@[j]).0@ != account@
                },
                None => forall|j: int|
                    0 <= j < self.documents@.len() ==> (#[trigger] self.documents@[j]).0@
                        != account@,
            },
    {
        let mut i: usize = 0;
        while i < self.documents.len()
            invariant
                0 <= i <= self.documents@.len(),
                forall|j: int| 0 <= j < i ==> (#[trigger] self.documents@[j]).0@ != account@,
            decreases self.documents@.len() - i,
        {
            let entry = &self.documents[i];
            if entry.0.equals(account) {
                return Some(i);
            }
            i += 1;
        }
        None
    }

    /// Classifies `content` with the registry's validation policy. Pure: no
    /// side effects, no error path.
    fn validate_document(&self, content: &Vec<u8>) -> (b: bool)
        ensures
            b == self.spec_policy().accepts(content@),
    {
        self.policy.validate(content)
    }

    /// Stores the caller's current document record, overwriting any prior
    /// record for the same caller. A document the policy rejects is still
    /// stored, flagged invalid, to preserve the trail of submission
    /// attempts. In the signature-bearing variant the content is signed by
    /// the authority keystore before insertion; the upload aborts without
    /// storing anything only if key material cannot be resolved, which the
    /// reference derivation never refuses.
    pub fn upload_document(&mut self, caller: AccountId, content: Vec<u8>) -> (r: Result<
        (),
        RegistryError,
    >)
        ensures
            r is Ok,
            uploaded(*old(self), *final(self), caller@, content@),
    {
        let valid = self.validate_document(&content);
        let signature: Option<Signature> = if self.signing {
            match sign_message(&self.owner, &content) {
                Ok(sig) => Some(sig),
                Err(e) => {
                    return Err(e);
                },
            }
        } else {
            None
        };
        let doc = Document { content, is_valid: valid, signature };
        let ghost pre = *self;
        let ghost entry = (caller, doc);
        match self.find_index(&caller) {
            Some(i) => {
                self.documents.set(i, (caller, doc));
                proof {
                    lemma_find_doc_update_found(pre.documents@, i as int, entry);
                    assert forall|a: Seq<u8>| a != caller@ implies (#[trigger] self.record(a))
                        == pre.record(a) by {
                        lemma_find_doc_update_other(pre.documents@, i as int, entry, a);
                    }
                }
            },
            None => {
                self.documents.push((caller, doc));
                proof {
                    lemma_find_doc_push_found(pre.documents@, entry);
                    assert forall|a: Seq<u8>| a != caller@ implies (#[trigger] self.record(a))
                        == pre.record(a) by {
                        lemma_find_doc_push_other(pre.documents@, entry, a);
                    }
                }
            },
        }
        Ok(())
    }

    /// Pure lookup of the record stored for `account_id`. An absent record
    /// is a normal outcome, not an error.
    pub fn get_document(&self, account_id: AccountId) -> (r: Option<&Document>)
        ensures
            match r {
                Some(d) => self.record(account_id@) == Some(d@),
                None => self.record(account_id@) is None,
            },
    {
        match self.find_index(&account_id) {
            Some(i) => {
                proof {
                    lemma_find_doc_skip(self.documents@, account_id@, i as int);
                    assert(self.documents@.subrange(i as int, self.documents@.len() as int)[0]
                        == self.documents@[i as int]);
                }
                Some(&self.documents[i].1)
            },
            None => {
                proof {
                    lemma_find_doc_skip(self.documents@, account_id@, self.documents@.len() as int);
                    assert(self.documents@.subrange(
                        self.documents@.len() as int,
                        self.documents@.len() as int,
                    ) =~= Seq::<(AccountId, Document)>::empty());
                }
                None
            },
        }
    }

    /// Verifies the stored signature for `account_id` against the stored
    /// content under the key resolved for that account. Total over all
    /// accounts: an absent or unsigned record, or any mismatch, reports
    /// `false`, never an error.
    pub fn verify_signature(&self, account_id: AccountId) -> (r: bool)
        ensures
            r == self.spec_verify(account_id@),
    {
        match self.get_document(account_id) {
            None => false,
            Some(doc) => match &doc.signature {
                None => false,
                Some(sig) => {
                    let pk = public_key_of(&self.owner, &account_id);
                    check_signature(&pk, &doc.content, sig)
                },
            },
        }
    }

    /// Constructs the event informing a peer registry about this registry's
    /// uploads, on behalf of `caller`. Fire-and-forget: it takes the registry
    /// by shared borrow, so no stored record, the owner, the flag or the
    /// policy can change, however often it is called.
    pub fn notify_payment_methods(&self, caller: AccountId, other_contract: AccountId) -> (ev:
        NotifyPaymentMethods)
        ensures
            ev.sender@ == caller@,
            ev.other_contract@ == other_contract@,
    {
        NotifyPaymentMethods { sender: caller, other_contract }
    }
}

/// Idempotent overwrite: two uploads by the same caller leave the caller's
/// slot holding the second content, never the first, and touch no other
/// slot.
pub proof fn lemma_idempotent_overwrite<P: ValidationPolicy>(
    s0: DocumentContract<P>,
    s1: DocumentContract<P>,
    s2: DocumentContract<P>,
    caller: Seq<u8>,
    c1: Seq<u8>,
    c2: Seq<u8>,
)
    requires
        uploaded(s0, s1, caller, c1),
        uploaded(s1, s2, caller, c2),
    ensures
        s2.record(caller) matches Some(d) && d.content == c2,
        forall|a: Seq<u8>| a != caller ==> (#[trigger] s2.record(a)) == s0.record(a),
{
}

/// Signature binding: after an upload to a signing registry, verification
/// for the uploader succeeds, because the key resolved for the uploader is
/// the one the authority signed with.
pub proof fn lemma_signature_binding<P: ValidationPolicy>(
    pre: DocumentContract<P>,
    post: DocumentContract<P>,
    caller: Seq<u8>,
    content: Seq<u8>,
)
    requires
        pre.spec_signing(),
        uploaded(pre, post, caller, content),
    ensures
        post.spec_verify(caller),
{
}

/// Verification totality, absent half: for an account with no stored record,
/// verification reports `false` rather than failing. Together with
/// `verify_signature`'s boolean result type this makes verification total
/// over all accounts and states.
pub proof fn lemma_verification_total<P: ValidationPolicy>(
    s: DocumentContract<P>,
    account: Seq<u8>,
)
    requires
        s.record(account) is None,
    ensures
        !s.spec_verify(account),
{
}

/// Store even if invalid: an upload whose content the policy rejects still
/// leaves a retrievable record, flagged invalid; it is not dropped.
pub proof fn lemma_store_even_if_invalid<P: ValidationPolicy>(
    pre: DocumentContract<P>,
    post: DocumentContract<P>,
    caller: Seq<u8>,
    content: Seq<u8>,
)
    requires
        uploaded(pre, post, caller, content),
        !pre.spec_policy().accepts(content),
    ensures
        post.record(caller) matches Some(d) && d.content == content && !d.is_valid,
{
}

} // verus!
