//! Accepted-knowledge admission.
//!
//! A submitted statement is first checked against the accepted records: an
//! exact repeat (same domain, same statement) is rejected as a duplicate of
//! the earlier record without asking the judge.  Otherwise the judge sees the
//! statement with the accepted records as neighbours.  An accepted statement
//! is stored under a fresh identity; a rejection carries the judge's reason.
//! Operational failures (store unreadable, judge unreachable, no identity
//! left) are rejections for persistence, never "meaning unclear".

use std::collections::VecDeque;

use vstd::prelude::*;

use crate::configuration::MindKnowledgeJudgeSocketConfiguration;
use crate::knowledge_identity::{
    identity_used, is_knowledge_identity, next_identity_from_draws, next_identity_text, KnowledgeIdentityMint,
};

verus! {

/// Why a submission was not accepted.
#[derive(Debug)]
pub enum KnowledgeRejectionReason {
    NotKnowledge,
    PrivateOrUnauthorized,
    MeaningUnclear,
    SemanticDuplicate(String),
    ConflictsAcceptedKnowledge(Vec<String>),
    WrongDomain(String),
    NeedsMoreSpecificShape,
    PersistenceRejected,
}

#[derive(Debug)]
pub enum KnowledgeJudgeVerdict {
    Accept,
    Reject(KnowledgeRejectionReason),
}

/// A statement submitted for acceptance.  `domain` is the domain's canonical
/// text; domains are compared by it.
#[derive(Debug)]
pub struct KnowledgeSubmission {
    pub domain: String,
    pub statement: String,
}

/// An accepted statement.
#[derive(Debug)]
pub struct AcceptedKnowledge {
    pub identity: String,
    pub domain: String,
    pub statement: String,
    pub accepted_by: String,
    pub accepted_at: u64,
}

/// What the judge is shown.
#[derive(Debug)]
pub struct KnowledgeJudgePacket {
    pub domain: String,
    pub statement: String,
    pub relevant_neighbors: Vec<AcceptedKnowledge>,
}

/// The knowledge answers mind gives.
#[derive(Debug)]
pub enum KnowledgeReply {
    Accepted(String),
    Rejected(KnowledgeRejectionReason),
    Found(AcceptedKnowledge),
    NotFound,
}

/// How the judge's answer was obtained.
#[derive(Debug)]
pub enum KnowledgeJudgeParseStatus {
    ParsedKnowledgeJudgeResponse,
    MindJudgeRequestRejected { reason: String, message: String },
    MindJudgeUnavailable { error: String },
}

/// The judge's verdict with its diagnostics.
#[derive(Debug)]
pub struct KnowledgeJudgeDecision {
    pub verdict: KnowledgeJudgeVerdict,
    pub diagnostic_message: Option<String>,
    pub parse_status: KnowledgeJudgeParseStatus,
}

pub open spec fn same_statement(record: AcceptedKnowledge, submission: KnowledgeSubmission) -> bool {
    record.domain@ == submission.domain@ && record.statement@ == submission.statement@
}

/// The position of the first accepted record that repeats the submission.
pub open spec fn first_repeat(records: Seq<AcceptedKnowledge>, submission: KnowledgeSubmission) -> Option<int> {
    if exists|i: int| 0 <= i < records.len() && same_statement(#[trigger] records[i], submission) {
        Some(
            choose|i: int|
                0 <= i < records.len() && same_statement(#[trigger] records[i], submission) && forall|k: int|
                    0 <= k < i ==> !same_statement(#[trigger] records[k], submission),
        )
    } else {
        None
    }
}

proof fn lemma_first_repeat_is(records: Seq<AcceptedKnowledge>, submission: KnowledgeSubmission, index: int)
    requires
        0 <= index < records.len(),
        same_statement(records[index], submission),
        forall|k: int| 0 <= k < index ==> !same_statement(#[trigger] records[k], submission),
    ensures
        first_repeat(records, submission) == Some(index),
{
    let chosen = choose|i: int|
        0 <= i < records.len() && same_statement(#[trigger] records[i], submission) && forall|k: int|
            0 <= k < i ==> !same_statement(#[trigger] records[k], submission);
    assert(same_statement(records[index], submission));
    if chosen < index {
        assert(!same_statement(records[chosen], submission));
    } else if chosen > index {
        assert(!same_statement(records[index], submission));
    }
}

proof fn lemma_first_repeat_exists(records: Seq<AcceptedKnowledge>, submission: KnowledgeSubmission, n: int)
    requires
        0 < n <= records.len(),
        exists|i: int| 0 <= i < n && same_statement(#[trigger] records[i], submission),
    ensures
        exists|i: int|
            0 <= i < records.len() && same_statement(#[trigger] records[i], submission) && forall|k: int|
                0 <= k < i ==> !same_statement(#[trigger] records[k], submission),
    decreases n,
{
    if exists|i: int| 0 <= i < n - 1 && same_statement(#[trigger] records[i], submission) {
        lemma_first_repeat_exists(records, submission, n - 1);
    } else {
        let last = n - 1;
        assert(same_statement(records[last], submission));
        assert forall|k: int| 0 <= k < last implies !same_statement(#[trigger] records[k], submission) by {
            if same_statement(records[k], submission) {
                assert(exists|i: int| 0 <= i < n - 1 && same_statement(#[trigger] records[i], submission));
            }
        }
    }
}

/// A submission repeats an accepted record exactly when the record has the
/// same domain and the same statement: admission names the first such
/// record as the duplicate, and a submission that no record matches on both
/// goes to the judge.
pub proof fn law_a_repeat_has_the_same_domain_and_statement(
    records: Seq<AcceptedKnowledge>,
    submission: KnowledgeSubmission,
)
    ensures
        first_repeat(records, submission) is None <==> forall|i: int|
            0 <= i < records.len() ==> !((#[trigger] records[i]).domain@ == submission.domain@
                && records[i].statement@ == submission.statement@),
        first_repeat(records, submission) matches Some(i) ==> {
            &&& 0 <= i < records.len()
            &&& records[i].domain@ == submission.domain@
            &&& records[i].statement@ == submission.statement@
            &&& forall|k: int|
                0 <= k < i ==> !((#[trigger] records[k]).domain@ == submission.domain@ && records[k].statement@
                    == submission.statement@)
        },
{
    if exists|i: int| 0 <= i < records.len() && same_statement(#[trigger] records[i], submission) {
        lemma_first_repeat_exists(records, submission, records.len() as int);
    }
}

proof fn lemma_first_with_identity_exists(records: Seq<AcceptedKnowledge>, identity: Seq<char>, n: int)
    requires
        0 < n <= records.len(),
        exists|i: int| 0 <= i < n && (#[trigger] records[i]).identity@ == identity,
    ensures
        exists|i: int|
            0 <= i < records.len() && (#[trigger] records[i]).identity@ == identity && forall|k: int|
                0 <= k < i ==> (#[trigger] records[k]).identity@ != identity,
    decreases n,
{
    if exists|i: int| 0 <= i < n - 1 && (#[trigger] records[i]).identity@ == identity {
        lemma_first_with_identity_exists(records, identity, n - 1);
    } else {
        let last = n - 1;
        assert(records[last].identity@ == identity);
        assert forall|k: int| 0 <= k < last implies (#[trigger] records[k]).identity@ != identity by {
            if records[k].identity@ == identity {
                assert(exists|i: int| 0 <= i < n - 1 && (#[trigger] records[i]).identity@ == identity);
            }
        }
    }
}

/// A lookup by identity finds an accepted record exactly when one has that
/// identity, and what it finds is a stored record with that identity.
pub proof fn law_lookup_finds_the_record_with_that_identity(records: Seq<AcceptedKnowledge>, identity: Seq<char>)
    ensures
        first_with_identity(records, identity) is None <==> forall|i: int|
            0 <= i < records.len() ==> (#[trigger] records[i]).identity@ != identity,
        first_with_identity(records, identity) matches Some(i) ==> 0 <= i < records.len() && records[i].identity@
            == identity,
{
    if exists|i: int| 0 <= i < records.len() && (#[trigger] records[i]).identity@ == identity {
        lemma_first_with_identity_exists(records, identity, records.len() as int);
    }
}

/// An exact repeat of a submission among the accepted records.
pub struct ExactKnowledgeDuplicate;

impl ExactKnowledgeDuplicate {
    /// The identity of the first accepted record with the same domain and
    /// statement.
    pub fn accepted_identity(submission: &KnowledgeSubmission, records: &Vec<AcceptedKnowledge>) -> (identity: Option<String>)
        ensures
            identity == match first_repeat(records@, *submission) {
                Some(i) => Some(records@[i].identity),
                None => None::<String>,
            },
    {
        let mut index: usize = 0;
        while index < records.len()
            invariant
                index <= records@.len(),
                forall|k: int| 0 <= k < index ==> !same_statement(#[trigger] records@[k], *submission),
            decreases records@.len() - index,
        {
            let record = &records[index];
            if record.domain == submission.domain && record.statement == submission.statement {
                proof {
                    lemma_first_repeat_is(records@, *submission, index as int);
                }
                return Some(record.identity.clone());
            }
            index = index + 1;
        }
        None
    }
}

/// The position of the first accepted record with the given identity.
pub open spec fn first_with_identity(records: Seq<AcceptedKnowledge>, identity: Seq<char>) -> Option<int> {
    if exists|i: int| 0 <= i < records.len() && (#[trigger] records[i]).identity@ == identity {
        Some(
            choose|i: int|
                0 <= i < records.len() && (#[trigger] records[i]).identity@ == identity && forall|k: int|
                    0 <= k < i ==> (#[trigger] records[k]).identity@ != identity,
        )
    } else {
        None
    }
}

impl AcceptedKnowledge {
    pub fn duplicate(&self) -> (copy: Self)
        ensures
            copy == *self,
    {
        AcceptedKnowledge {
            identity: self.identity.clone(),
            domain: self.domain.clone(),
            statement: self.statement.clone(),
            accepted_by: self.accepted_by.clone(),
            accepted_at: self.accepted_at,
        }
    }
}

/// Looks accepted knowledge up by identity.
pub struct KnowledgeQueryEngine {
    pub records: Vec<AcceptedKnowledge>,
}

impl KnowledgeQueryEngine {
    pub fn new(records: Vec<AcceptedKnowledge>) -> (engine: Self)
        ensures
            engine.records == records,
    {
        Self { records }
    }

    pub fn reply(&self, identity: &String) -> (reply: KnowledgeReply)
        ensures
            reply == match first_with_identity(self.records@, identity@) {
                Some(i) => KnowledgeReply::Found(self.records@[i]),
                None => KnowledgeReply::NotFound,
            },
    {
        let mut index: usize = 0;
        while index < self.records.len()
            invariant
                index <= self.records@.len(),
                forall|k: int| 0 <= k < index ==> (#[trigger] self.records@[k]).identity@ != identity@,
            decreases self.records@.len() - index,
        {
            if self.records[index].identity == *identity {
                proof {
                    let chosen = choose|i: int|
                        0 <= i < self.records@.len() && (#[trigger] self.records@[i]).identity@ == identity@
                            && forall|k: int| 0 <= k < i ==> (#[trigger] self.records@[k]).identity@ != identity@;
                    assert(self.records@[index as int].identity@ == identity@);
                    if chosen < index {
                        assert(self.records@[chosen].identity@ != identity@);
                    } else if chosen > index {
                        assert(self.records@[index as int].identity@ != identity@);
                    }
                }
                return KnowledgeReply::Found(self.records[index].duplicate());
            }
            index = index + 1;
        }
        KnowledgeReply::NotFound
    }
}

/// The first step of admission.
#[derive(Debug)]
pub enum KnowledgeAdmissionStep {
    /// Answer at once with this rejection.
    Rejected(KnowledgeRejectionReason),
    /// Ask the judge about this packet.
    Judge(KnowledgeJudgePacket),
}

/// The step after the judge's verdict.
#[derive(Debug)]
pub enum KnowledgeVerdictStep {
    /// Store the submission under a fresh identity.
    ApplyAcceptance,
    /// Answer with the judge's rejection.
    Reply(KnowledgeReply),
}

pub struct KnowledgeAdmission;

impl KnowledgeAdmission {
    /// Checks a submission against the accepted records (`None` when they
    /// could not be read) before the judge is asked.
    pub fn prepare(submission: &KnowledgeSubmission, accepted: Option<Vec<AcceptedKnowledge>>) -> (step: KnowledgeAdmissionStep)
        ensures
            match accepted {
                None => step == KnowledgeAdmissionStep::Rejected(KnowledgeRejectionReason::PersistenceRejected),
                Some(records) => match first_repeat(records@, *submission) {
                    Some(i) => step == KnowledgeAdmissionStep::Rejected(
                        KnowledgeRejectionReason::SemanticDuplicate(records@[i].identity),
                    ),
                    None => step == KnowledgeAdmissionStep::Judge(KnowledgeJudgePacket {
                        domain: submission.domain,
                        statement: submission.statement,
                        relevant_neighbors: records,
                    }),
                },
            },
    {
        let records = match accepted {
            Some(records) => records,
            None => return KnowledgeAdmissionStep::Rejected(KnowledgeRejectionReason::PersistenceRejected),
        };
        match ExactKnowledgeDuplicate::accepted_identity(submission, &records) {
            Some(identity) => KnowledgeAdmissionStep::Rejected(KnowledgeRejectionReason::SemanticDuplicate(identity)),
            None => KnowledgeAdmissionStep::Judge(KnowledgeJudgePacket {
                domain: submission.domain.clone(),
                statement: submission.statement.clone(),
                relevant_neighbors: records,
            }),
        }
    }

    /// What the judge's verdict leads to.
    pub fn after_verdict(verdict: KnowledgeJudgeVerdict) -> (step: KnowledgeVerdictStep)
        ensures
            match verdict {
                KnowledgeJudgeVerdict::Accept => step is ApplyAcceptance,
                KnowledgeJudgeVerdict::Reject(reason) => step == KnowledgeVerdictStep::Reply(
                    KnowledgeReply::Rejected(reason),
                ),
            },
    {
        match verdict {
            KnowledgeJudgeVerdict::Accept => KnowledgeVerdictStep::ApplyAcceptance,
            KnowledgeJudgeVerdict::Reject(reason) => KnowledgeVerdictStep::Reply(KnowledgeReply::Rejected(reason)),
        }
    }

    /// The answer once acceptance was applied: the new identity, or the
    /// rejection it failed with.
    pub fn after_acceptance(applied: Result<String, KnowledgeRejectionReason>) -> (reply: KnowledgeReply)
        ensures
            match applied {
                Ok(identity) => reply == KnowledgeReply::Accepted(identity),
                Err(reason) => reply == KnowledgeReply::Rejected(reason),
            },
    {
        match applied {
            Ok(identity) => KnowledgeReply::Accepted(identity),
            Err(reason) => KnowledgeReply::Rejected(reason),
        }
    }

    /// The record that acceptance stores.
    pub fn accepted_record(identity: String, submission: KnowledgeSubmission, actor: String, accepted_at: u64) -> (record: AcceptedKnowledge)
        ensures
            record == (AcceptedKnowledge {
                identity,
                domain: submission.domain,
                statement: submission.statement,
                accepted_by: actor,
                accepted_at,
            }),
    {
        AcceptedKnowledge { identity, domain: submission.domain, statement: submission.statement, accepted_by: actor, accepted_at }
    }

    /// Mints the identity for an accepted submission from the identities in
    /// use (`None` when they could not be read); every failure is a rejection
    /// for persistence.
    pub fn mint_identity(existing: Option<&Vec<AcceptedKnowledge>>) -> (identity: Result<String, KnowledgeRejectionReason>)
        ensures
            existing is None ==> identity == Err::<String, KnowledgeRejectionReason>(KnowledgeRejectionReason::PersistenceRejected),
            identity matches Err(reason) ==> reason == KnowledgeRejectionReason::PersistenceRejected,
            identity matches Ok(code) ==> existing is Some && is_knowledge_identity(code@) && forall|i: int|
                0 <= i < existing.unwrap()@.len() ==> (#[trigger] existing.unwrap()@[i]).identity@ != code@,
            existing matches Some(records) ==> exists|draw_sets: Seq<Seq<Result<[u8; 8], getrandom::Error>>>|
                draw_sets.len() == 4 && minted_knowledge_text(identity) == #[trigger] next_identity_from_draws(
                    accepted_identities(records@),
                    draw_sets,
                    4,
                ),
    {
        let records = match existing {
            Some(records) => records,
            None => return Err(KnowledgeRejectionReason::PersistenceRejected),
        };
        let mut used: Vec<String> = Vec::new();
        let mut index: usize = 0;
        while index < records.len()
            invariant
                index <= records@.len(),
                used@.len() == index,
                forall|i: int| 0 <= i < index ==> #[trigger] used@[i] == records@[i].identity,
            decreases records@.len() - index,
        {
            used.push(records[index].identity.clone());
            index = index + 1;
        }
        proof {
            assert(used@ =~= accepted_identities(records@));
        }
        let mint = KnowledgeIdentityMint::from_identities(used);
        let minted = mint.next_identity();
        proof {
            let draw_sets = choose|draw_sets: Seq<Seq<Result<[u8; 8], getrandom::Error>>>|
                draw_sets.len() == 4 && next_identity_text(minted) == #[trigger] next_identity_from_draws(
                    mint.used_identities@,
                    draw_sets,
                    4,
                );
            assert(minted_knowledge_text(match minted {
                Ok(code) => Ok(code),
                Err(()) => Err(KnowledgeRejectionReason::PersistenceRejected),
            }) == next_identity_from_draws(accepted_identities(records@), draw_sets, 4));
        }
        match minted {
            Ok(code) => {
                proof {
                    assert forall|i: int| 0 <= i < records@.len() implies (#[trigger] records@[i]).identity@ != code@ by {
                        assert(mint.used_identities@[i] == records@[i].identity);
                        if records@[i].identity@ == code@ {
                            assert(identity_used(mint.used_identities@, code@));
                        }
                    }
                }
                Ok(code)
            },
            Err(()) => Err(KnowledgeRejectionReason::PersistenceRejected),
        }
    }
}

impl KnowledgeJudgeDecision {
    pub fn new(verdict: KnowledgeJudgeVerdict) -> (decision: Self)
        ensures
            decision.verdict == verdict,
            decision.diagnostic_message is None,
            decision.parse_status is ParsedKnowledgeJudgeResponse,
    {
        Self { verdict, diagnostic_message: None, parse_status: KnowledgeJudgeParseStatus::ParsedKnowledgeJudgeResponse }
    }

    /// The decision recorded when the judge could not be reached: a rejection
    /// for persistence, with the error kept as diagnostics.
    pub fn judge_unavailable(error: String) -> (decision: Self)
        ensures
            decision.verdict == KnowledgeJudgeVerdict::Reject(KnowledgeRejectionReason::PersistenceRejected),
            decision.diagnostic_message matches Some(message) && message@ == "mind judge unavailable: "@ + error@,
            decision.parse_status == (KnowledgeJudgeParseStatus::MindJudgeUnavailable { error }),
    {
        let mut message = String::from_str("mind judge unavailable: ");
        message.append(error.as_str());
        Self {
            verdict: KnowledgeJudgeVerdict::Reject(KnowledgeRejectionReason::PersistenceRejected),
            diagnostic_message: Some(message),
            parse_status: KnowledgeJudgeParseStatus::MindJudgeUnavailable { error },
        }
    }

    pub fn verdict(&self) -> (verdict: &KnowledgeJudgeVerdict)
        ensures
            *verdict == self.verdict,
    {
        &self.verdict
    }
}


/// What admission gives, as the reply and the accepted records after it, from
/// the accepted records, the judge's verdict and the identity minted for an
/// acceptance: an exact repeat is a duplicate rejection naming the accepted
/// identity; a rejecting verdict is answered as it is; an accepting one
/// stores the submission under the minted identity, unless minting failed.
pub open spec fn admitted(
    records: Seq<AcceptedKnowledge>,
    submission: KnowledgeSubmission,
    verdict: KnowledgeJudgeVerdict,
    minted: Result<String, KnowledgeRejectionReason>,
    actor: String,
    accepted_at: u64,
) -> (KnowledgeReply, Seq<AcceptedKnowledge>) {
    match first_repeat(records, submission) {
        Some(i) => (KnowledgeReply::Rejected(KnowledgeRejectionReason::SemanticDuplicate(records[i].identity)), records),
        None => match verdict {
            KnowledgeJudgeVerdict::Reject(reason) => (KnowledgeReply::Rejected(reason), records),
            KnowledgeJudgeVerdict::Accept => match minted {
                Err(reason) => (KnowledgeReply::Rejected(reason), records),
                Ok(identity) => (
                    KnowledgeReply::Accepted(identity),
                    records.push(
                        AcceptedKnowledge {
                            identity,
                            domain: submission.domain,
                            statement: submission.statement,
                            accepted_by: actor,
                            accepted_at,
                        },
                    ),
                ),
            },
        },
    }
}

/// A copy of the accepted records.
fn duplicate_records(records: &Vec<AcceptedKnowledge>) -> (copy: Vec<AcceptedKnowledge>)
    ensures
        copy@ == records@,
{
    let mut copy: Vec<AcceptedKnowledge> = Vec::new();
    let mut index: usize = 0;
    while index < records.len()
        invariant
            index <= records@.len(),
            copy@ == records@.take(index as int),
        decreases records@.len() - index,
    {
        copy.push(records[index].duplicate());
        proof {
            assert(records@.take(index + 1) =~= records@.take(index as int).push(records@[index as int]));
        }
        index = index + 1;
    }
    proof {
        assert(records@.take(index as int) =~= records@);
    }
    copy
}

/// A copy of a list of identities.
fn duplicate_identities(identities: &Vec<String>) -> (copy: Vec<String>)
    ensures
        copy@ == identities@,
{
    let mut copy: Vec<String> = Vec::new();
    let mut index: usize = 0;
    while index < identities.len()
        invariant
            index <= identities@.len(),
            copy@ == identities@.take(index as int),
        decreases identities@.len() - index,
    {
        copy.push(identities[index].clone());
        proof {
            assert(identities@.take(index + 1) =~= identities@.take(index as int).push(identities@[index as int]));
        }
        index = index + 1;
    }
    proof {
        assert(identities@.take(index as int) =~= identities@);
    }
    copy
}

/// Two rejection reasons that agree: the same reason, with the same
/// identities or domain.
pub open spec fn same_rejection(a: KnowledgeRejectionReason, b: KnowledgeRejectionReason) -> bool {
    match (a, b) {
        (
            KnowledgeRejectionReason::ConflictsAcceptedKnowledge(x),
            KnowledgeRejectionReason::ConflictsAcceptedKnowledge(y),
        ) => x@ == y@,
        _ => a == b,
    }
}

/// Two verdicts that agree.
pub open spec fn same_verdict(a: KnowledgeJudgeVerdict, b: KnowledgeJudgeVerdict) -> bool {
    match (a, b) {
        (KnowledgeJudgeVerdict::Reject(x), KnowledgeJudgeVerdict::Reject(y)) => same_rejection(x, y),
        _ => a == b,
    }
}

/// Two replies that agree.
pub open spec fn same_reply(a: KnowledgeReply, b: KnowledgeReply) -> bool {
    match (a, b) {
        (KnowledgeReply::Rejected(x), KnowledgeReply::Rejected(y)) => same_rejection(x, y),
        _ => a == b,
    }
}

impl KnowledgeRejectionReason {
    pub fn duplicate(&self) -> (copy: Self)
        ensures
            same_rejection(copy, *self),
    {
        match self {
            KnowledgeRejectionReason::NotKnowledge => KnowledgeRejectionReason::NotKnowledge,
            KnowledgeRejectionReason::PrivateOrUnauthorized => KnowledgeRejectionReason::PrivateOrUnauthorized,
            KnowledgeRejectionReason::MeaningUnclear => KnowledgeRejectionReason::MeaningUnclear,
            KnowledgeRejectionReason::SemanticDuplicate(identity) => {
                KnowledgeRejectionReason::SemanticDuplicate(identity.clone())
            },
            KnowledgeRejectionReason::ConflictsAcceptedKnowledge(identities) => {
                KnowledgeRejectionReason::ConflictsAcceptedKnowledge(duplicate_identities(identities))
            },
            KnowledgeRejectionReason::WrongDomain(domain) => KnowledgeRejectionReason::WrongDomain(domain.clone()),
            KnowledgeRejectionReason::NeedsMoreSpecificShape => KnowledgeRejectionReason::NeedsMoreSpecificShape,
            KnowledgeRejectionReason::PersistenceRejected => KnowledgeRejectionReason::PersistenceRejected,
        }
    }
}

impl KnowledgeJudgeVerdict {
    pub fn duplicate(&self) -> (copy: Self)
        ensures
            same_verdict(copy, *self),
    {
        match self {
            KnowledgeJudgeVerdict::Accept => KnowledgeJudgeVerdict::Accept,
            KnowledgeJudgeVerdict::Reject(reason) => KnowledgeJudgeVerdict::Reject(reason.duplicate()),
        }
    }
}

impl KnowledgeReply {
    pub fn duplicate(&self) -> (copy: Self)
        ensures
            same_reply(copy, *self),
    {
        match self {
            KnowledgeReply::Accepted(identity) => KnowledgeReply::Accepted(identity.clone()),
            KnowledgeReply::Rejected(reason) => KnowledgeReply::Rejected(reason.duplicate()),
            KnowledgeReply::Found(record) => KnowledgeReply::Found(record.duplicate()),
            KnowledgeReply::NotFound => KnowledgeReply::NotFound,
        }
    }
}

/// What one admission gives: the reply, the accepted records after it, and
/// the applied decision to hand back to the judge when the judge was asked.
#[derive(Debug)]
pub struct KnowledgeAdmissionOutcome {
    pub reply: KnowledgeReply,
    pub records: Vec<AcceptedKnowledge>,
    pub applied: Option<KnowledgeJudgeAppliedDecision>,
}

/// Whether `applied` is what admission hands back to the judge: nothing for
/// an exact repeat, which the judge was not asked about; otherwise the
/// submission, the judge's decision and the reply given.
pub open spec fn hands_back(
    applied: Option<KnowledgeJudgeAppliedDecision>,
    records: Seq<AcceptedKnowledge>,
    submission: KnowledgeSubmission,
    decision: KnowledgeJudgeDecision,
    reply: KnowledgeReply,
) -> bool {
    match first_repeat(records, submission) {
        Some(_) => applied is None,
        None => applied matches Some(given) && given.submission == submission && same_verdict(
            given.verdict,
            decision.verdict,
        ) && given.diagnostic_message == decision.diagnostic_message && given.parse_status
            == decision.parse_status && same_reply(given.reply, reply),
    }
}

impl KnowledgeAdmission {
    /// Admission run through its steps, with the judge's decision and the
    /// minted identity given: `prepare`, then `after_verdict`, then storing
    /// `accepted_record` and answering with `after_acceptance`; a judged
    /// submission's decision is then handed back with the reply.
    pub fn admit_with_decision(
        records: Vec<AcceptedKnowledge>,
        submission: KnowledgeSubmission,
        decision: KnowledgeJudgeDecision,
        minted: Result<String, KnowledgeRejectionReason>,
        actor: String,
        accepted_at: u64,
    ) -> (outcome: KnowledgeAdmissionOutcome)
        ensures
            (outcome.reply, outcome.records@) == admitted(records@, submission, decision.verdict, minted, actor, accepted_at),
            hands_back(outcome.applied, records@, submission, decision, outcome.reply),
    {
        let kept = duplicate_records(&records);
        match Self::prepare(&submission, Some(records)) {
            KnowledgeAdmissionStep::Rejected(reason) => {
                KnowledgeAdmissionOutcome { reply: KnowledgeReply::Rejected(reason), records: kept, applied: None }
            },
            KnowledgeAdmissionStep::Judge(packet) => {
                let mut stored = packet.relevant_neighbors;
                let KnowledgeJudgeDecision { verdict, diagnostic_message, parse_status } = decision;
                let handed_verdict = verdict.duplicate();
                let reply = match Self::after_verdict(verdict) {
                    KnowledgeVerdictStep::Reply(reply) => reply,
                    KnowledgeVerdictStep::ApplyAcceptance => match minted {
                        Ok(identity) => {
                            let copy = KnowledgeSubmission {
                                domain: submission.domain.clone(),
                                statement: submission.statement.clone(),
                            };
                            let record = Self::accepted_record(identity.clone(), copy, actor, accepted_at);
                            stored.push(record);
                            Self::after_acceptance(Ok(identity))
                        },
                        Err(reason) => Self::after_acceptance(Err(reason)),
                    },
                };
                let applied = KnowledgeJudgeAppliedDecision {
                    submission,
                    verdict: handed_verdict,
                    diagnostic_message,
                    parse_status,
                    reply: reply.duplicate(),
                };
                KnowledgeAdmissionOutcome { reply, records: stored, applied: Some(applied) }
            },
        }
    }
}

/// A submission that the judge accepts and that is stored under a freshly
/// minted identity is answered as accepted under that identity, and a lookup
/// by that identity afterwards finds the stored record, with the submitted
/// domain and statement.
pub proof fn law_accepted_submission_is_found(
    records: Seq<AcceptedKnowledge>,
    submission: KnowledgeSubmission,
    identity: String,
    actor: String,
    accepted_at: u64,
)
    requires
        first_repeat(records, submission) is None,
        forall|i: int| 0 <= i < records.len() ==> (#[trigger] records[i]).identity@ != identity@,
    ensures
        ({
            let (reply, stored) = admitted(
                records,
                submission,
                KnowledgeJudgeVerdict::Accept,
                Ok(identity),
                actor,
                accepted_at,
            );
            &&& reply == KnowledgeReply::Accepted(identity)
            &&& first_with_identity(stored, identity@) == Some(records.len() as int)
            &&& stored[records.len() as int].identity == identity
            &&& stored[records.len() as int].domain == submission.domain
            &&& stored[records.len() as int].statement == submission.statement
        }),
{
    law_accepted_knowledge_is_found(records, identity, submission, actor, accepted_at);
}

/// What acceptance stores can be read back: once the record accepted under a
/// fresh identity joins the accepted records, a lookup by that identity finds
/// exactly that record.
pub proof fn law_accepted_knowledge_is_found(
    records: Seq<AcceptedKnowledge>,
    identity: String,
    submission: KnowledgeSubmission,
    actor: String,
    accepted_at: u64,
)
    requires
        forall|i: int| 0 <= i < records.len() ==> (#[trigger] records[i]).identity@ != identity@,
    ensures
        ({
            let record = AcceptedKnowledge {
                identity,
                domain: submission.domain,
                statement: submission.statement,
                accepted_by: actor,
                accepted_at,
            };
            first_with_identity(records.push(record), identity@) == Some(records.len() as int)
        }),
{
    let record = AcceptedKnowledge {
        identity,
        domain: submission.domain,
        statement: submission.statement,
        accepted_by: actor,
        accepted_at,
    };
    let stored = records.push(record);
    assert(stored[records.len() as int].identity@ == identity@);
    let chosen = choose|i: int|
        0 <= i < stored.len() && (#[trigger] stored[i]).identity@ == identity@ && forall|k: int|
            0 <= k < i ==> (#[trigger] stored[k]).identity@ != identity@;
    assert forall|k: int| 0 <= k < records.len() implies (#[trigger] stored[k]).identity@ != identity@ by {
        assert(stored[k] == records[k]);
    }
    if chosen < records.len() {
        assert(stored[chosen] == records[chosen]);
    }
}

/// Once a submission is accepted, submitting the same domain and statement
/// again finds the accepted record as its exact repeat, so admission answers
/// with a duplicate rejection naming the accepted identity.
pub proof fn law_resubmission_is_duplicate(
    records: Seq<AcceptedKnowledge>,
    identity: String,
    submission: KnowledgeSubmission,
    actor: String,
    accepted_at: u64,
)
    requires
        first_repeat(records, submission) is None,
    ensures
        ({
            let record = AcceptedKnowledge {
                identity,
                domain: submission.domain,
                statement: submission.statement,
                accepted_by: actor,
                accepted_at,
            };
            first_repeat(records.push(record), submission) == Some(records.len() as int)
        }),
{
    let record = AcceptedKnowledge {
        identity,
        domain: submission.domain,
        statement: submission.statement,
        accepted_by: actor,
        accepted_at,
    };
    let stored = records.push(record);
    assert(same_statement(stored[records.len() as int], submission));
    assert forall|k: int| 0 <= k < records.len() implies !same_statement(#[trigger] stored[k], submission) by {
        assert(stored[k] == records[k]);
        if same_statement(records[k], submission) {
            assert(exists|i: int| 0 <= i < records.len() && same_statement(#[trigger] records[i], submission));
        }
    }
    lemma_first_repeat_is(stored, submission, records.len() as int);
}


/// What a judge is asked: the packet built from a submission.
#[derive(Debug)]
pub struct KnowledgeJudgeRequest {
    pub packet: KnowledgeJudgePacket,
}

impl KnowledgeJudgeRequest {
    pub fn new(packet: KnowledgeJudgePacket) -> (request: Self)
        ensures
            request.packet == packet,
    {
        Self { packet }
    }

    pub fn packet(&self) -> (packet: &KnowledgeJudgePacket)
        ensures
            *packet == self.packet,
    {
        &self.packet
    }
}

/// A judge's decision together with the submission it was about and the
/// reply mind gave: what a judge is told once its decision was applied.
#[derive(Debug)]
pub struct KnowledgeJudgeAppliedDecision {
    pub submission: KnowledgeSubmission,
    pub verdict: KnowledgeJudgeVerdict,
    pub diagnostic_message: Option<String>,
    pub parse_status: KnowledgeJudgeParseStatus,
    pub reply: KnowledgeReply,
}

impl KnowledgeJudgeAppliedDecision {
    pub fn new(submission: KnowledgeSubmission, decision: KnowledgeJudgeDecision, reply: KnowledgeReply) -> (applied: Self)
        ensures
            applied == (Self {
                submission,
                verdict: decision.verdict,
                diagnostic_message: decision.diagnostic_message,
                parse_status: decision.parse_status,
                reply,
            }),
    {
        Self {
            submission,
            verdict: decision.verdict,
            diagnostic_message: decision.diagnostic_message,
            parse_status: decision.parse_status,
            reply,
        }
    }
}

/// What the mind-judge service answers to one judgment request.
#[derive(Debug)]
pub enum MindJudgeReply {
    /// The judge answered: its verdict and optional diagnostics.
    KnowledgeJudged { verdict: KnowledgeJudgeVerdict, diagnostic_message: Option<String> },
    /// The service refused the request: the reason, as rendered by the
    /// service contract, and its message.
    RequestRejected { reason: String, message: String },
}

impl KnowledgeJudgeDecision {
    /// The decision the mind-judge service's answer amounts to: a judged
    /// answer is taken as given; a refused request is an operational failure
    /// and so a rejection for persistence, with the service's reason and
    /// message kept as diagnostics.
    pub fn from_mind_judge_reply(reply: MindJudgeReply) -> (decision: Self)
        ensures
            match reply {
                MindJudgeReply::KnowledgeJudged { verdict, diagnostic_message } => decision == (Self {
                    verdict,
                    diagnostic_message,
                    parse_status: KnowledgeJudgeParseStatus::ParsedKnowledgeJudgeResponse,
                }),
                MindJudgeReply::RequestRejected { reason, message } => {
                    &&& decision.verdict == KnowledgeJudgeVerdict::Reject(KnowledgeRejectionReason::PersistenceRejected)
                    &&& decision.diagnostic_message matches Some(text)
                        && text@ == "mind judge operational rejection: "@ + reason@ + ": "@ + message@
                    &&& decision.parse_status == (KnowledgeJudgeParseStatus::MindJudgeRequestRejected { reason, message })
                },
            },
    {
        match reply {
            MindJudgeReply::KnowledgeJudged { verdict, diagnostic_message } => Self {
                verdict,
                diagnostic_message,
                parse_status: KnowledgeJudgeParseStatus::ParsedKnowledgeJudgeResponse,
            },
            MindJudgeReply::RequestRejected { reason, message } => Self::request_rejected(reason, message),
        }
    }

    fn request_rejected(reason: String, message: String) -> (decision: Self)
        ensures
            decision.verdict == KnowledgeJudgeVerdict::Reject(KnowledgeRejectionReason::PersistenceRejected),
            decision.diagnostic_message matches Some(text)
                && text@ == "mind judge operational rejection: "@ + reason@ + ": "@ + message@,
            decision.parse_status == (KnowledgeJudgeParseStatus::MindJudgeRequestRejected { reason, message }),
    {
        let mut text = String::from_str("mind judge operational rejection: ");
        text.append(reason.as_str());
        text.append(": ");
        text.append(message.as_str());
        proof {
            assert(text@ =~= "mind judge operational rejection: "@ + reason@ + ": "@ + message@);
        }
        Self {
            verdict: KnowledgeJudgeVerdict::Reject(KnowledgeRejectionReason::PersistenceRejected),
            diagnostic_message: Some(text),
            parse_status: KnowledgeJudgeParseStatus::MindJudgeRequestRejected { reason, message },
        }
    }
}

/// A knowledge judge: asked about each submission that is not an exact
/// repeat, and told afterwards how its decision was applied.
pub trait KnowledgeJudge {
    fn judge(&mut self, request: KnowledgeJudgeRequest) -> KnowledgeJudgeDecision;

    /// Told the applied decision once mind has replied; a judge that keeps
    /// no record ignores it.
    fn record_applied_decision(&mut self, decision: KnowledgeJudgeAppliedDecision) {
    }
}

/// A judge that answers from a fixed list of verdicts, in order, and rejects
/// as "meaning unclear" once the list is used up; it counts its calls.
#[derive(Debug)]
pub struct FixtureKnowledgeJudge {
    verdicts: VecDeque<KnowledgeJudgeVerdict>,
    calls: usize,
}

impl FixtureKnowledgeJudge {
    /// The verdicts still to be given, first first.
    pub closed spec fn queued(&self) -> Seq<KnowledgeJudgeVerdict> {
        self.verdicts@
    }

    pub closed spec fn call_count(&self) -> usize {
        self.calls
    }

    pub fn new(verdicts: Vec<KnowledgeJudgeVerdict>) -> (judge: Self)
        ensures
            judge.queued() == verdicts@,
            judge.call_count() == 0,
    {
        let ghost given = verdicts@;
        let mut queue: VecDeque<KnowledgeJudgeVerdict> = VecDeque::new();
        let mut remaining = verdicts;
        while remaining.len() > 0
            invariant
                queue@ + remaining@ == given,
            decreases remaining@.len(),
        {
            let ghost before = remaining@;
            let verdict = remaining.remove(0);
            proof {
                assert(before =~= seq![verdict] + remaining@);
                assert(queue@.push(verdict) + remaining@ =~= queue@ + before);
            }
            queue.push_back(verdict);
        }
        proof {
            assert(queue@ + remaining@ =~= queue@);
        }
        Self { verdicts: queue, calls: 0 }
    }

    pub fn empty() -> (judge: Self)
        ensures
            judge.queued().len() == 0,
            judge.call_count() == 0,
    {
        Self { verdicts: VecDeque::new(), calls: 0 }
    }

    pub fn calls(&self) -> (calls: usize)
        ensures
            calls == self.call_count(),
    {
        self.calls
    }

    fn next_verdict(&mut self) -> (verdict: KnowledgeJudgeVerdict)
        ensures
            old(self).queued().len() > 0 ==> verdict == old(self).queued()[0] && final(self).queued()
                == old(self).queued().drop_first(),
            old(self).queued().len() == 0 ==> verdict == KnowledgeJudgeVerdict::Reject(
                KnowledgeRejectionReason::MeaningUnclear,
            ) && final(self).queued().len() == 0,
            final(self).call_count() == old(self).call_count(),
    {
        match self.verdicts.pop_front() {
            Some(verdict) => verdict,
            None => KnowledgeJudgeVerdict::Reject(KnowledgeRejectionReason::MeaningUnclear),
        }
    }

}

impl KnowledgeJudge for FixtureKnowledgeJudge {
    /// Answers with the next verdict and counts the call (the count wraps
    /// around at the largest `usize`).
    fn judge(&mut self, request: KnowledgeJudgeRequest) -> (decision: KnowledgeJudgeDecision)
        ensures
            old(self).queued().len() > 0 ==> decision.verdict == old(self).queued()[0] && final(self).queued()
                == old(self).queued().drop_first(),
            old(self).queued().len() == 0 ==> decision.verdict == KnowledgeJudgeVerdict::Reject(
                KnowledgeRejectionReason::MeaningUnclear,
            ) && final(self).queued().len() == 0,
            decision.diagnostic_message is None,
            decision.parse_status is ParsedKnowledgeJudgeResponse,
            final(self).call_count() == old(self).call_count().wrapping_add(1),
            fixture_judge_step(*old(self), *final(self), decision),
    {
        self.calls = self.calls.wrapping_add(1);
        KnowledgeJudgeDecision::new(self.next_verdict())
    }
}

/// One call of a fixture judge, as `judge` answers it: the first queued
/// verdict, or a "meaning unclear" rejection once none is left, and one more
/// call counted.
pub open spec fn fixture_judge_step(
    before: FixtureKnowledgeJudge,
    after: FixtureKnowledgeJudge,
    decision: KnowledgeJudgeDecision,
) -> bool {
    &&& before.queued().len() > 0 ==> decision.verdict == before.queued()[0] && after.queued()
        == before.queued().drop_first()
    &&& before.queued().len() == 0 ==> decision.verdict == KnowledgeJudgeVerdict::Reject(
        KnowledgeRejectionReason::MeaningUnclear,
    ) && after.queued().len() == 0
    &&& after.call_count() == before.call_count().wrapping_add(1)
}

/// The verdict a fixture judge made with `verdicts` gives on its call
/// numbered `call` (from zero).
pub open spec fn fixture_verdict(verdicts: Seq<KnowledgeJudgeVerdict>, call: int) -> KnowledgeJudgeVerdict {
    if 0 <= call < verdicts.len() {
        verdicts[call]
    } else {
        KnowledgeJudgeVerdict::Reject(KnowledgeRejectionReason::MeaningUnclear)
    }
}

proof fn lemma_fixture_judge_prefix(
    verdicts: Seq<KnowledgeJudgeVerdict>,
    states: Seq<FixtureKnowledgeJudge>,
    decisions: Seq<KnowledgeJudgeDecision>,
    n: nat,
)
    requires
        states.len() == decisions.len() + 1,
        states.len() <= usize::MAX,
        states[0].queued() == verdicts,
        states[0].call_count() == 0,
        forall|i: int|
            #![trigger decisions[i]]
            0 <= i < decisions.len() ==> fixture_judge_step(states[i], states[i + 1], decisions[i]),
        n < states.len(),
    ensures
        states[n as int].queued() == (if n <= verdicts.len() {
            verdicts.skip(n as int)
        } else {
            Seq::<KnowledgeJudgeVerdict>::empty()
        }),
        states[n as int].call_count() == n,
        n < decisions.len() ==> decisions[n as int].verdict == fixture_verdict(verdicts, n as int),
    decreases n,
{
    if n > 0 {
        lemma_fixture_judge_prefix(verdicts, states, decisions, (n - 1) as nat);
        let previous = (n - 1) as int;
        assert(fixture_judge_step(states[previous], states[previous + 1], decisions[previous]));
        if n <= verdicts.len() {
            assert(verdicts.skip(previous).drop_first() =~= verdicts.skip(n as int));
        } else {
            assert(states[n as int].queued() =~= Seq::<KnowledgeJudgeVerdict>::empty());
        }
    } else {
        assert(verdicts.skip(0) =~= verdicts);
    }
    if n < decisions.len() {
        assert(fixture_judge_step(states[n as int], states[n as int + 1], decisions[n as int]));
    }
}

/// A fixture judge made with `verdicts` answers its calls in order: call
/// number `k` gets `verdicts[k]`, and every call after the list is used up
/// gets a "meaning unclear" rejection; after `k` calls it has counted `k`.
/// So a judge made with no verdicts rejects every request as meaning unclear.
pub proof fn law_fixture_judge_answers_in_order(
    verdicts: Seq<KnowledgeJudgeVerdict>,
    states: Seq<FixtureKnowledgeJudge>,
    decisions: Seq<KnowledgeJudgeDecision>,
)
    requires
        states.len() == decisions.len() + 1,
        states.len() <= usize::MAX,
        states[0].queued() == verdicts,
        states[0].call_count() == 0,
        forall|i: int|
            #![trigger decisions[i]]
            0 <= i < decisions.len() ==> fixture_judge_step(states[i], states[i + 1], decisions[i]),
    ensures
        forall|k: int| 0 <= k < decisions.len() ==> #[trigger] decisions[k].verdict == fixture_verdict(verdicts, k),
        forall|k: int| 0 <= k < states.len() ==> #[trigger] states[k].call_count() == k,
{
    assert forall|k: int| 0 <= k < decisions.len() implies #[trigger] decisions[k].verdict == fixture_verdict(
        verdicts,
        k,
    ) by {
        lemma_fixture_judge_prefix(verdicts, states, decisions, k as nat);
    }
    assert forall|k: int| 0 <= k < states.len() implies #[trigger] states[k].call_count() == k by {
        lemma_fixture_judge_prefix(verdicts, states, decisions, k as nat);
    }
}

impl Default for FixtureKnowledgeJudge {
    fn default() -> (judge: Self)
        ensures
            judge.queued().len() == 0,
            judge.call_count() == 0,
    {
        Self::empty()
    }
}

/// Where the mind-judge service listens and how long one judgment may take.
#[derive(Debug)]
pub struct MindJudgeSocketKnowledgeJudgeConfiguration {
    pub socket_path: String,
    pub timeout_milliseconds: u64,
}

impl MindJudgeSocketKnowledgeJudgeConfiguration {
    pub fn from_contract(configuration: MindKnowledgeJudgeSocketConfiguration) -> (judge: Self)
        ensures
            judge.socket_path == configuration.socket_path,
            judge.timeout_milliseconds == configuration.timeout_milliseconds,
    {
        Self { socket_path: configuration.socket_path, timeout_milliseconds: configuration.timeout_milliseconds }
    }

    pub fn socket_path(&self) -> (path: &str)
        ensures
            path@ == self.socket_path@,
    {
        self.socket_path.as_str()
    }
}

/// The judge that asks the mind-judge service over its socket.
#[derive(Debug)]
pub struct MindJudgeSocketKnowledgeJudge {
    pub configuration: MindJudgeSocketKnowledgeJudgeConfiguration,
}

impl MindJudgeSocketKnowledgeJudge {
    pub fn new(configuration: MindKnowledgeJudgeSocketConfiguration) -> (judge: Self)
        ensures
            judge.configuration.socket_path == configuration.socket_path,
            judge.configuration.timeout_milliseconds == configuration.timeout_milliseconds,
    {
        Self { configuration: MindJudgeSocketKnowledgeJudgeConfiguration::from_contract(configuration) }
    }
}

/// The identities of the accepted records, in order.
pub open spec fn accepted_identities(records: Seq<AcceptedKnowledge>) -> Seq<String> {
    records.map_values(|record: AcceptedKnowledge| record.identity)
}

/// A minted identity taken by its text; every failure alike.
pub open spec fn minted_knowledge_text(identity: Result<String, KnowledgeRejectionReason>) -> Result<Seq<char>, ()> {
    match identity {
        Ok(code) => Ok(code@),
        Err(_) => Err(()),
    }
}

} // verus!
