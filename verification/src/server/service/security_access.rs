//! Answer of SecurityAccess: a seed for an odd level, a verdict on the key
//! for the even level that follows it.

use crate::blob::{bytes_as_slice, bytes_contents, bytes_from_vec};
use crate::message::{copy_bytes, Request, RequestView, Service};
use crate::nrc;
use crate::security::SecurityAlgo;
use crate::server::context::Context;
use crate::server::server_impl::{
    built, refusal, reply_negative, reply_positive, DoCanServer, Handled, Outcome, outcome_of,
};
use crate::server::session::after_unlock;
use crate::server::util::gen_seed;
use crate::subfunction::{
    is_request_seed, spec_is_request_seed, spec_sub_function_defined, sub_function_defined,
};
use bytes::Bytes;
use vstd::prelude::*;

verus! {

/// What a SecurityAccess request asks the server to do, before any seed is
/// drawn or any key computed.
pub enum SecurityPlan {
    /// Refuse with this response code.
    Refuse(u8),
    /// Draw a seed for this level.
    IssueSeed(u8),
    /// Ask the algorithm for the key to the challenge of this level with this
    /// seed; the request was for the level above.
    CheckKey(u8, Seq<u8>),
}

/// What the server does next for a SecurityAccess request, with the values
/// it needs for it.
pub enum SecurityStep {
    /// Refuse with this response code.
    Refuse(u8),
    /// Draw a seed for this level.
    IssueSeed(u8),
    /// Put this question to the algorithm: the level of the challenge, its
    /// seed, and the salt. `level` is the level the request names, one above
    /// the challenge; the answer echoes it.
    Ask { challenge: u8, seed: Vec<u8>, salt: Vec<u8>, level: u8 },
}

/// The plan a step stands for.
pub open spec fn step_plan(step: SecurityStep) -> SecurityPlan {
    match step {
        SecurityStep::Refuse(code) => SecurityPlan::Refuse(code),
        SecurityStep::IssueSeed(level) => SecurityPlan::IssueSeed(level),
        SecurityStep::Ask { challenge, seed, .. } => SecurityPlan::CheckKey(challenge, seed@),
    }
}

/// The outstanding challenge, with its seed as a sequence.
pub open spec fn pending_challenge(sa_ctx: Option<(u8, Bytes)>) -> Option<(u8, Seq<u8>)> {
    match sa_ctx {
        Some((level, seed)) => Some((level, bytes_contents(seed))),
        None => None,
    }
}

/// The plan for a request, given the outstanding challenge and whether an
/// algorithm is registered.
pub open spec fn security_plan(
    req: RequestView,
    pending: Option<(u8, Seq<u8>)>,
    has_algo: bool,
) -> SecurityPlan {
    match req.sub_function {
        None => SecurityPlan::Refuse(nrc::INCORRECT_MESSAGE_LENGTH_OR_INVALID_FORMAT),
        Some(sf) => {
            let level = sf.spec_function();
            if !spec_sub_function_defined(Service::SecurityAccess, level) {
                SecurityPlan::Refuse(nrc::SUB_FUNCTION_NOT_SUPPORTED)
            } else if spec_is_request_seed(level) {
                SecurityPlan::IssueSeed(level)
            } else {
                match pending {
                    None => SecurityPlan::Refuse(nrc::SUB_FUNCTION_NOT_SUPPORTED),
                    Some((challenge, seed)) => if level - 1 != challenge {
                        SecurityPlan::Refuse(nrc::CONDITIONS_NOT_CORRECT)
                    } else if !has_algo {
                        SecurityPlan::Refuse(nrc::CONDITIONS_NOT_CORRECT)
                    } else {
                        SecurityPlan::CheckKey(challenge, seed)
                    },
                }
            }
        },
    }
}

/// Whether a request sends a key: it names a defined even level. Such a
/// request uses up the outstanding challenge, whatever the verdict.
pub open spec fn sends_key(req: RequestView) -> bool {
    req.sub_function matches Some(sf) && spec_sub_function_defined(
        Service::SecurityAccess,
        sf.spec_function(),
    ) && !spec_is_request_seed(sf.spec_function())
}

/// The answer to a seed request: level and seed.
pub open spec fn seed_outcome(level: u8, seed: Seq<u8>, dids: Map<u16, usize>) -> Outcome {
    built(Service::SecurityAccess, Some(level), seed, dids)
}

/// What the algorithm said, with the key as a sequence.
pub enum Verdict {
    Key(Seq<u8>),
    NoKey,
    Failed,
}

pub open spec fn verdict_of(result: Result<Option<Vec<u8>>, String>) -> Verdict {
    match result {
        Ok(Some(key)) => Verdict::Key(key@),
        Ok(None) => Verdict::NoKey,
        Err(_) => Verdict::Failed,
    }
}

/// The answer to a key request at `level`, once the algorithm has spoken.
pub open spec fn key_outcome(level: u8, verdict: Verdict, dids: Map<u16, usize>) -> Outcome {
    match verdict {
        Verdict::Key(key) => built(Service::SecurityAccess, Some(level), key, dids),
        Verdict::NoKey => refusal(Service::SecurityAccess, nrc::SECURITY_ACCESS_DENIED),
        Verdict::Failed => refusal(Service::SecurityAccess, nrc::GENERAL_REJECT),
    }
}

/// What holds after a SecurityAccess request, whatever seed was drawn and
/// whatever the algorithm said.
pub open spec fn security_access_post<A: SecurityAlgo>(
    before: Context<A>,
    after: Context<A>,
    req: RequestView,
    outcome: Outcome,
) -> bool {
    let dids = before.config.did_cfg@;
    match security_plan(req, pending_challenge(before.sa_ctx), before.sa_algo is Some) {
        SecurityPlan::Refuse(code) => {
            &&& outcome == refusal(Service::SecurityAccess, code)
            &&& after.session == before.session
            &&& after.sa_ctx == (if sends_key(req) {
                None
            } else {
                before.sa_ctx
            })
        },
        SecurityPlan::IssueSeed(level) => {
            &&& after.session == before.session
            &&& exists|seed: Seq<u8>|
                {
                    &&& seed.len() == before.config.seed_len
                    &&& #[trigger] seed_outcome(level, seed, dids) == outcome
                    &&& pending_challenge(after.sa_ctx) == Some((level, seed))
                }
        },
        SecurityPlan::CheckKey(challenge, seed) => {
            &&& after.sa_ctx is None
            &&& exists|verdict: Verdict|
                {
                    &&& #[trigger] key_outcome((challenge + 1) as u8, verdict, dids) == outcome
                    &&& after.session@ == (if verdict is Key {
                        after_unlock(before.session@, challenge)
                    } else {
                        before.session@
                    })
                }
        },
    }
}

impl<A: SecurityAlgo> DoCanServer<A> {
    /// Answers a seed request with the given seed and remembers the
    /// challenge, in place of any earlier one.
    pub fn issue_seed(&mut self, level: u8, seed: Vec<u8>) -> (r: Handled)
        ensures
            outcome_of(r) == seed_outcome(level, seed@, old(self).context.config.did_cfg@),
            pending_challenge(final(self).context.sa_ctx) == Some((level, seed@)),
            final(self).context.config == old(self).context.config,
            final(self).context.did_st == old(self).context.did_st,
            final(self).context.did_dyn == old(self).context.did_dyn,
            final(self).context.sa_algo == old(self).context.sa_algo,
            final(self).context.session == old(self).context.session,
    {
        let r = reply_positive(
            Service::SecurityAccess,
            Some(level),
            seed.as_slice(),
            &self.context.config.did_cfg,
        );
        self.context.sa_ctx = Some((level, bytes_from_vec(seed)));
        r
    }

    /// Answers the key request at `level` for the challenge of the level
    /// `challenge`, once the algorithm has spoken: a key unlocks the level of
    /// the challenge.
    pub fn conclude_key(
        &mut self,
        challenge: u8,
        level: u8,
        result: Result<Option<Vec<u8>>, String>,
    ) -> (r: Handled)
        ensures
            outcome_of(r) == key_outcome(
                level,
                verdict_of(result),
                old(self).context.config.did_cfg@,
            ),
            final(self).context.session@ == (if verdict_of(result) is Key {
                after_unlock(old(self).context.session@, challenge)
            } else {
                old(self).context.session@
            }),
            final(self).context.config == old(self).context.config,
            final(self).context.did_st == old(self).context.did_st,
            final(self).context.did_dyn == old(self).context.did_dyn,
            final(self).context.sa_algo == old(self).context.sa_algo,
            final(self).context.sa_ctx == old(self).context.sa_ctx,
    {
        let service = Service::SecurityAccess;
        match result {
            Ok(Some(key)) => {
                self.context.session.set_security_access_level(challenge);
                reply_positive(service, Some(level), key.as_slice(), &self.context.config.did_cfg)
            },
            Ok(None) => reply_negative(service, nrc::SECURITY_ACCESS_DENIED),
            Err(_) => reply_negative(service, nrc::GENERAL_REJECT),
        }
    }

    /// What a SecurityAccess request asks the server to do, with the question
    /// to put to the algorithm made ready: the level of the challenge, its
    /// seed and the configured salt. A request that sends a key uses up the
    /// outstanding challenge, whatever the step is.
    pub fn security_step(&mut self, req: &Request) -> (step: SecurityStep)
        ensures
            step_plan(step) == security_plan(
                req@,
                pending_challenge(old(self).context.sa_ctx),
                old(self).context.sa_algo is Some,
            ),
            step matches SecurityStep::Ask { challenge, salt, level, .. } ==> {
                &&& salt@ == old(self).context.config.sa_salt@
                &&& level == challenge + 1
                &&& req@.sub_function matches Some(sf)
                &&& level == sf.spec_function()
            },
            final(self).context.sa_ctx == (if sends_key(req@) {
                None
            } else {
                old(self).context.sa_ctx
            }),
            final(self).context.config == old(self).context.config,
            final(self).context.did_st == old(self).context.did_st,
            final(self).context.did_dyn == old(self).context.did_dyn,
            final(self).context.sa_algo == old(self).context.sa_algo,
            final(self).context.session == old(self).context.session,
    {
        match req.sub_function {
            None => SecurityStep::Refuse(nrc::INCORRECT_MESSAGE_LENGTH_OR_INVALID_FORMAT),
            Some(sf) => {
                let level = sf.function();
                if !sub_function_defined(Service::SecurityAccess, level) {
                    SecurityStep::Refuse(nrc::SUB_FUNCTION_NOT_SUPPORTED)
                } else if is_request_seed(level) {
                    SecurityStep::IssueSeed(level)
                } else {
                    let pending = self.context.sa_ctx.take();
                    match pending {
                        None => SecurityStep::Refuse(nrc::SUB_FUNCTION_NOT_SUPPORTED),
                        Some((challenge, seed)) => {
                            if level - 1 != challenge {
                                SecurityStep::Refuse(nrc::CONDITIONS_NOT_CORRECT)
                            } else if self.context.sa_algo.is_none() {
                                SecurityStep::Refuse(nrc::CONDITIONS_NOT_CORRECT)
                            } else {
                                SecurityStep::Ask {
                                    challenge,
                                    seed: copy_bytes(bytes_as_slice(&seed)),
                                    salt: copy_bytes(self.context.config.sa_salt.as_slice()),
                                    level,
                                }
                            }
                        },
                    }
                }
            },
        }
    }

    /// Answers a SecurityAccess request: draws the seed, or puts to the
    /// registered algorithm the question that `security_step` made, and
    /// answers as `conclude_key` says.
    pub fn security_access(&mut self, req: &Request) -> (r: Handled)
        ensures
            security_access_post(old(self).context, final(self).context, req@, outcome_of(r)),
            outcome_of(r) !is Silent,
            final(self).context.config == old(self).context.config,
            final(self).context.did_st == old(self).context.did_st,
            final(self).context.did_dyn == old(self).context.did_dyn,
            final(self).context.sa_algo == old(self).context.sa_algo,
    {
        let service = Service::SecurityAccess;
        match self.security_step(req) {
            SecurityStep::Refuse(code) => reply_negative(service, code),
            SecurityStep::IssueSeed(level) => {
                let seed = gen_seed(self.context.config.seed_len);
                let ghost drawn = seed@;
                let r = self.issue_seed(level, seed);
                assert(seed_outcome(level, drawn, old(self).context.config.did_cfg@)
                    == outcome_of(r));
                r
            },
            SecurityStep::Ask { challenge, seed, salt, level } => {
                let algo = self.context.sa_algo.as_ref().unwrap();
                let answer = algo.compute(challenge, seed.as_slice(), salt.as_slice());
                let ghost verdict = verdict_of(answer);
                let r = self.conclude_key(challenge, level, answer);
                assert(key_outcome(level, verdict, old(self).context.config.did_cfg@)
                    == outcome_of(r));
                r
            },
        }
    }
}

} // verus!
