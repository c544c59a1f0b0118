//! Rules that decide whether a consumer may get at the data of an asset.
//!
//! The one rule here limits how often a consumer may use an asset. An
//! executor holds the rule, asks it on behalf of a caller, and says what is
//! to be reported to the host.

use vstd::prelude::*;
use crate::account::AccountId;
use crate::store::AccountMap;

verus! {

/// How often a consumer has used an asset.
#[derive(Clone, Copy, Debug, PartialEq, Eq, Structural)]
pub struct Usage {
    /// The asset.
    pub asset_id: u32,
    /// The number of uses that were allowed.
    pub access_attempts: u32,
}

/// The consumer may use the asset.
#[derive(Clone, Copy, Debug, PartialEq, Eq, Structural)]
pub struct AccessAllowed {}

/// The consumer has used the asset as often as the rule allows.
#[derive(Clone, Copy, Debug, PartialEq, Eq, Structural)]
pub struct LimitExceeded {}

/// A rule that an executor can hold.
pub trait ComposableAccessRule {
    /// Whether the rule can be asked about this asset and consumer.
    spec fn ready(&self, asset_id: u32, consumer: AccountId) -> bool;

    /// Whether the consumer may get at the data of the asset now.
    fn execute(&mut self, asset_id: u32, consumer: AccountId) -> (allowed: bool)
        requires
            old(self).ready(asset_id, consumer),
    ;
}

/// Whether the entry at place `i` is the first for `asset_id`.
pub open spec fn is_entry_of(usage: Seq<Usage>, asset_id: u32, i: int) -> bool {
    &&& 0 <= i < usage.len()
    &&& usage[i].asset_id == asset_id
    &&& forall|j: int| 0 <= j < i ==> usage[j].asset_id != asset_id
}

/// Whether there is an entry for `asset_id`.
pub open spec fn tracks(usage: Seq<Usage>, asset_id: u32) -> bool {
    exists|i: int| is_entry_of(usage, asset_id, i)
}

/// The place of the first entry for `asset_id`.
pub open spec fn entry_of(usage: Seq<Usage>, asset_id: u32) -> int {
    choose|i: int| is_entry_of(usage, asset_id, i)
}

/// What a limited-use rule holds: the limit, and for each consumer the
/// assets used with the number of uses.
pub struct LimitedUse {
    pub limit: u32,
    pub usage: Map<AccountId, Seq<Usage>>,
}

impl LimitedUse {
    /// Whether the rule can be asked about this asset and consumer: a
    /// consumer who is known at all is known for the asset.
    pub open spec fn can_ask(self, asset_id: u32, consumer: AccountId) -> bool {
        self.usage.contains_key(consumer) ==> tracks(self.usage[consumer], asset_id)
    }

    /// Whether the consumer may use the asset once more: the consumer is new,
    /// or has used it less often than the limit says.
    pub open spec fn allows(self, asset_id: u32, consumer: AccountId) -> bool {
        !self.usage.contains_key(consumer) || self.usage[consumer][entry_of(
            self.usage[consumer],
            asset_id,
        )].access_attempts < self.limit
    }

    /// The rule after the consumer has asked to use the asset. A use that is
    /// allowed is counted; the entry that counts it moves to the end of the
    /// consumer's entries.
    pub open spec fn execute(self, asset_id: u32, consumer: AccountId) -> LimitedUse {
        if !self.usage.contains_key(consumer) {
            LimitedUse {
                usage: self.usage.insert(consumer, seq![Usage { asset_id, access_attempts: 1 }]),
                ..self
            }
        } else if self.allows(asset_id, consumer) {
            let entries = self.usage[consumer];
            let at = entry_of(entries, asset_id);
            LimitedUse {
                usage: self.usage.insert(
                    consumer,
                    entries.remove(at).push(
                        Usage {
                            asset_id,
                            access_attempts: (entries[at].access_attempts + 1) as u32,
                        },
                    ),
                ),
                ..self
            }
        } else {
            self
        }
    }
}

/// The rule that a consumer may use an asset a limited number of times.
pub struct LimitedUseRule {
    limit: u32,
    usage_counter: AccountMap<Vec<Usage>>,
}

impl View for LimitedUseRule {
    type V = LimitedUse;

    closed spec fn view(&self) -> LimitedUse {
        LimitedUse {
            limit: self.limit,
            usage: self.usage_counter@.map_values(|v: Vec<Usage>| v@),
        }
    }
}

/// The place of the first entry for `asset_id`, if there is one.
fn find_entry(usage: &Vec<Usage>, asset_id: u32) -> (r: Option<usize>)
    ensures
        match r {
            Some(i) => is_entry_of(usage@, asset_id, i as int) && entry_of(usage@, asset_id) == i,
            None => !tracks(usage@, asset_id),
        },
{
    let mut i: usize = 0;
    while i < usage.len()
        invariant
            i <= usage@.len(),
            forall|j: int| 0 <= j < i ==> usage@[j].asset_id != asset_id,
        decreases usage@.len() - i,
    {
        if usage[i].asset_id == asset_id {
            proof {
                assert(is_entry_of(usage@, asset_id, i as int));
                let c = entry_of(usage@, asset_id);
                assert(is_entry_of(usage@, asset_id, c));
                assert(c == i);
            }
            return Some(i);
        }
        i += 1;
    }
    proof {
        if tracks(usage@, asset_id) {
            let c = entry_of(usage@, asset_id);
            assert(is_entry_of(usage@, asset_id, c));
        }
    }
    None
}

impl LimitedUseRule {
    /// The representation invariant.
    pub closed spec fn wf(&self) -> bool {
        self.usage_counter.wf()
    }

    /// A rule that allows `limit` uses, which is at least one.
    pub fn new(limit: u32) -> (rule: LimitedUseRule)
        requires
            limit > 0,
        ensures
            rule.wf(),
            rule@ == (LimitedUse { limit, usage: Map::empty() }),
    {
        let rule = LimitedUseRule { limit, usage_counter: AccountMap::new() };
        assert(rule@.usage =~= Map::<AccountId, Seq<Usage>>::empty());
        rule
    }

    /// The number of uses that the rule allows.
    pub fn get_limit(&self) -> (limit: u32)
        ensures
            limit == self@.limit,
    {
        self.limit
    }

    /// The assets that `consumer` has used, with the number of uses.
    pub fn usage_of(&self, consumer: &AccountId) -> (r: Option<Vec<Usage>>)
        requires
            self.wf(),
        ensures
            match r {
                Some(v) => self@.usage.contains_key(*consumer) && v@ == self@.usage[*consumer],
                None => !self@.usage.contains_key(*consumer),
            },
    {
        match self.usage_counter.get(consumer) {
            Some(entries) => {
                let mut v: Vec<Usage> = Vec::new();
                let mut i: usize = 0;
                while i < entries.len()
                    invariant
                        i <= entries@.len(),
                        v@ == entries@.take(i as int),
                    decreases entries@.len() - i,
                {
                    v.push(entries[i]);
                    assert(entries@.take(i + 1) =~= entries@.take(i as int).push(entries@[i as int]));
                    i += 1;
                }
                assert(entries@.take(i as int) =~= entries@);
                Some(v)
            },
            None => None,
        }
    }

    /// Whether the rule can be asked about this asset and consumer: a
    /// consumer who is known at all is known for the asset.
    pub fn can_ask(&self, asset_id: u32, consumer: &AccountId) -> (r: bool)
        requires
            self.wf(),
        ensures
            r == self@.can_ask(asset_id, *consumer),
    {
        match self.usage_counter.get(consumer) {
            Some(entries) => find_entry(entries, asset_id).is_some(),
            None => true,
        }
    }

    /// Asks to use the asset for `consumer`, and counts the use where it is
    /// allowed.
    pub fn try_access(&mut self, asset_id: u32, consumer: AccountId) -> (r: Result<
        AccessAllowed,
        LimitExceeded,
    >)
        requires
            old(self).wf(),
            old(self)@.can_ask(asset_id, consumer),
        ensures
            final(self).wf(),
            r is Ok <==> old(self)@.allows(asset_id, consumer),
            final(self)@ == old(self)@.execute(asset_id, consumer),
    {
        let mut updated: Vec<Usage> = Vec::new();
        match self.usage_counter.get(&consumer) {
            Some(entries) => {
                let at = match find_entry(entries, asset_id) {
                    Some(at) => at,
                    None => {
                        return Err(LimitExceeded {  });
                    },
                };
                let u = entries[at];
                if u.access_attempts < self.limit {
                    let mut i: usize = 0;
                    while i < entries.len()
                        invariant
                            i <= entries@.len(),
                            at < entries@.len(),
                            updated@ == (if i <= at {
                                entries@.take(i as int)
                            } else {
                                entries@.remove(at as int).take(i - 1)
                            }),
                        decreases entries@.len() - i,
                    {
                        if i != at {
                            updated.push(entries[i]);
                        }
                        proof {
                            if i < at {
                                assert(entries@.take(i + 1) =~= entries@.take(i as int).push(
                                    entries@[i as int],
                                ));
                            } else if i == at {
                                assert(entries@.remove(at as int).take(i as int) =~= entries@.take(
                                    i as int,
                                ));
                            } else {
                                assert(entries@.remove(at as int).take(i as int)
                                    =~= entries@.remove(at as int).take(i - 1).push(
                                    entries@[i as int],
                                ));
                            }
                        }
                        i += 1;
                    }
                    assert(entries@.remove(at as int).take(entries@.len() - 1) =~= entries@.remove(
                        at as int,
                    ));
                    updated.push(Usage { asset_id, access_attempts: u.access_attempts + 1 });
                } else {
                    return Err(LimitExceeded {  });
                }
            },
            None => {
                updated.push(Usage { asset_id, access_attempts: 1 });
                assert(updated@ =~= seq![Usage { asset_id, access_attempts: 1 }]);
            },
        }
        self.usage_counter.insert(consumer, updated);
        assert(self@.usage =~= old(self)@.execute(asset_id, consumer).usage);
        Ok(AccessAllowed {  })
    }
}

impl ComposableAccessRule for LimitedUseRule {
    open spec fn ready(&self, asset_id: u32, consumer: AccountId) -> bool {
        self.wf() && self@.can_ask(asset_id, consumer)
    }

    /// Whether the consumer may use the asset once more; a use that is
    /// allowed is counted.
    fn execute(&mut self, asset_id: u32, consumer: AccountId) -> (allowed: bool)
        ensures
            final(self).wf(),
            allowed == old(self)@.allows(asset_id, consumer),
            final(self)@ == old(self)@.execute(asset_id, consumer),
    {
        self.try_access(asset_id, consumer).is_ok()
    }
}

/// An executor has asked its rule.
#[derive(Clone, Copy, Debug, PartialEq, Eq, Structural)]
pub struct RuleExecuted {}

/// A request for the data of an asset has been handed to the host.
#[derive(Clone, Copy, Debug, PartialEq, Eq, Structural)]
pub struct DataRequestSubmitted {}

/// The outcome of a rule has been handed to the host.
#[derive(Clone, Copy, Debug, PartialEq, Eq, Structural)]
pub struct ResultsSubmitted {}

/// What an executor reports to the host once it has asked its rule.
#[derive(Clone, Copy, Debug, PartialEq, Eq)]
pub struct RuleReport {
    /// Who asked.
    pub consumer: AccountId,
    /// The asset that was asked for.
    pub asset_id: u32,
    /// Whether the rule allowed it.
    pub result: bool,
}

/// What a rule executor holds.
pub struct Executor {
    pub version: u32,
    pub rule: LimitedUse,
}

/// An executor of access rules: it holds the rule that an asset may be used
/// once by each consumer.
pub struct RuleExecutor {
    version: u32,
    single_use_rule: LimitedUseRule,
}

impl View for RuleExecutor {
    type V = Executor;

    closed spec fn view(&self) -> Executor {
        Executor { version: self.version, rule: self.single_use_rule@ }
    }
}

impl RuleExecutor {
    /// The representation invariant.
    pub closed spec fn wf(&self) -> bool {
        self.single_use_rule.wf()
    }

    /// An executor whose rule allows one use and has counted none.
    pub fn new(version: u32) -> (executor: RuleExecutor)
        ensures
            executor.wf(),
            executor@ == (Executor {
                version,
                rule: LimitedUse { limit: 1, usage: Map::empty() },
            }),
    {
        RuleExecutor { version, single_use_rule: LimitedUseRule::new(1) }
    }

    /// The version of the executor.
    pub fn get_version(&self) -> (version: u32)
        ensures
            version == self@.version,
    {
        self.version
    }

    /// Whether the rule can be asked about this asset for `caller`.
    pub fn can_ask(&self, caller: &AccountId, asset_id: u32) -> (r: bool)
        requires
            self.wf(),
        ensures
            r == self@.rule.can_ask(asset_id, *caller),
    {
        self.single_use_rule.can_ask(asset_id, caller)
    }

    /// Asks the rule whether `caller` may get at the data of the asset,
    /// counts the use where it is allowed, and says what is to be reported.
    pub fn execute(&mut self, caller: AccountId, asset_id: u32) -> (done: (RuleExecuted, RuleReport))
        requires
            old(self).wf(),
            old(self)@.rule.can_ask(asset_id, caller),
        ensures
            final(self).wf(),
            done.1 == (RuleReport {
                consumer: caller,
                asset_id,
                result: old(self)@.rule.allows(asset_id, caller),
            }),
            final(self)@ == (Executor {
                rule: old(self)@.rule.execute(asset_id, caller),
                ..old(self)@
            }),
    {
        let result = self.single_use_rule.execute(asset_id, caller);
        (RuleExecuted {  }, RuleReport { consumer: caller, asset_id, result })
    }
}

/// The caller's tokens are to be burned: the asset has been used more often
/// than the limit says.
#[derive(Clone, Copy, Debug, PartialEq, Eq, Structural)]
pub struct BurnSuccess {}

/// The caller may proceed; the use has been counted.
#[derive(Clone, Copy, Debug, PartialEq, Eq, Structural)]
pub struct ConditionSuccess {}

/// What a limited-use token holds: the asset, the limit, and how often each
/// account has used it.
pub struct TokenUse {
    pub asset_id: u32,
    pub usage_limit: u32,
    pub access_history: Map<AccountId, u32>,
}

impl TokenUse {
    /// Whether the token can be asked by `caller`: the caller has a count,
    /// and the count can go up.
    pub open spec fn can_ask(self, caller: AccountId) -> bool {
        self.access_history.contains_key(caller) && (self.access_history[caller]
            <= self.usage_limit ==> self.access_history[caller] < u32::MAX)
    }

    /// Whether the caller has used the asset more often than the limit says.
    pub open spec fn exceeded(self, caller: AccountId) -> bool {
        self.access_history[caller] > self.usage_limit
    }

    /// The token after `caller` has asked: a use within the limit is counted.
    pub open spec fn execute(self, caller: AccountId) -> TokenUse {
        if self.exceeded(caller) {
            self
        } else {
            TokenUse {
                access_history: self.access_history.insert(
                    caller,
                    (self.access_history[caller] + 1) as u32,
                ),
                ..self
            }
        }
    }
}

/// A token that allows a limited number of uses of an asset; past the limit
/// the caller's tokens are burned.
pub struct LimitedUseToken {
    asset_id: u32,
    usage_limit: u32,
    access_history: AccountMap<u32>,
}

impl View for LimitedUseToken {
    type V = TokenUse;

    closed spec fn view(&self) -> TokenUse {
        TokenUse {
            asset_id: self.asset_id,
            usage_limit: self.usage_limit,
            access_history: self.access_history@,
        }
    }
}

impl LimitedUseToken {
    /// The representation invariant.
    pub closed spec fn wf(&self) -> bool {
        self.access_history.wf()
    }

    /// A token for `asset_id` that allows `usage_limit` uses and has counted
    /// none.
    pub fn new(asset_id: u32, usage_limit: u32) -> (token: LimitedUseToken)
        ensures
            token.wf(),
            token@ == (TokenUse { asset_id, usage_limit, access_history: Map::empty() }),
    {
        LimitedUseToken { asset_id, usage_limit, access_history: AccountMap::new() }
    }

    /// The asset.
    pub fn asset_id(&self) -> (id: u32)
        ensures
            id == self@.asset_id,
    {
        self.asset_id
    }

    /// The number of uses that the token allows.
    pub fn usage_limit(&self) -> (limit: u32)
        ensures
            limit == self@.usage_limit,
    {
        self.usage_limit
    }

    /// How often `caller` has used the asset, if the caller has a count.
    pub fn access_count(&self, caller: &AccountId) -> (r: Option<u32>)
        requires
            self.wf(),
        ensures
            r == (if self@.access_history.contains_key(*caller) {
                Some(self@.access_history[*caller])
            } else {
                None
            }),
    {
        match self.access_history.get(caller) {
            Some(n) => Some(*n),
            None => None,
        }
    }

    /// Asks to use the asset for `caller`, who has a count already. Within
    /// the limit the use is counted; past it nothing is counted and the
    /// caller's tokens are to be burned.
    pub fn execute(&mut self, caller: AccountId) -> (r: Result<ConditionSuccess, BurnSuccess>)
        requires
            old(self).wf(),
            old(self)@.can_ask(caller),
        ensures
            final(self).wf(),
            r is Err <==> old(self)@.exceeded(caller),
            final(self)@ == old(self)@.execute(caller),
    {
        let access_attempts: u32 = match self.access_history.get(&caller) {
            Some(n) => *n,
            None => {
                return Err(BurnSuccess {  });
            },
        };
        if access_attempts > self.usage_limit {
            Err(BurnSuccess {  })
        } else {
            let incremented: u32 = access_attempts + 1;
            self.access_history.insert(caller, incremented);
            Ok(ConditionSuccess {  })
        }
    }
}

impl Default for LimitedUseToken {
    fn default() -> (token: LimitedUseToken)
        ensures
            token.wf(),
            token@ == (TokenUse { asset_id: 0, usage_limit: 0, access_history: Map::empty() }),
    {
        LimitedUseToken::new(0, 0)
    }
}

} // verus!
