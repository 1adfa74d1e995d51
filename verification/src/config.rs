//! Guild-scoped support configuration, read by the core and owned by
//! external admin tooling: the ordered list of support channels, the
//! support roles to mention, and the guild's FAQ and rule texts, each
//! keyed by a text identifier that is unique within its guild.

use vstd::prelude::*;

use crate::error::Error;

verus! {

/// One FAQ row: a text key and the answer shown for it.
#[derive(Debug)]
pub struct Faq {
    pub id: String,
    pub answer: String,
}

/// One rule row: a text key and the rule text shown for it.
#[derive(Debug)]
pub struct Rule {
    pub rule_id: String,
    pub rule_text: String,
}

/// FAQ keys are unique within a guild (the store's key constraint).
pub open spec fn faq_ids_unique(faqs: Seq<Faq>) -> bool {
    forall|i: int, j: int|
        0 <= i < j < faqs.len() ==> (#[trigger] faqs[i].id@) != (#[trigger] faqs[j].id@)
}

/// Rule keys are unique within a guild (the store's key constraint).
pub open spec fn rule_ids_unique(rules: Seq<Rule>) -> bool {
    forall|i: int, j: int|
        0 <= i < j < rules.len() ==> (#[trigger] rules[i].rule_id@) != (#[trigger] rules[j].rule_id@)
}

/// The support configuration of one guild. The channel list keeps the
/// order the configuration lookup returns; fan-out follows it without
/// re-sorting.
#[derive(Debug)]
pub struct GuildConfig {
    pub support_channel_ids: Vec<u64>,
    pub support_role_ids: Vec<u64>,
    pub faqs: Vec<Faq>,
    pub rules: Vec<Rule>,
}

/// Both keyed tables of a configuration obey their key constraint.
pub open spec fn config_wf(c: GuildConfig) -> bool {
    &&& faq_ids_unique(c.faqs@)
    &&& rule_ids_unique(c.rules@)
}

impl GuildConfig {
    /// A configuration with no channels, roles, FAQ or rule rows.
    pub fn new() -> (r: Self)
        ensures
            r.support_channel_ids@ == Seq::<u64>::empty(),
            r.support_role_ids@ == Seq::<u64>::empty(),
            r.faqs@ == Seq::<Faq>::empty(),
            r.rules@ == Seq::<Rule>::empty(),
            config_wf(r),
    {
        GuildConfig {
            support_channel_ids: Vec::new(),
            support_role_ids: Vec::new(),
            faqs: Vec::new(),
            rules: Vec::new(),
        }
    }

    /// The position of the FAQ row keyed `support_id`, if one exists.
    fn faq_index(&self, support_id: &String) -> (r: Option<usize>)
        ensures
            r matches Some(k) ==> k < self.faqs@.len() && self.faqs@[k as int].id@ == support_id@,
            r is None ==> forall|k: int|
                0 <= k < self.faqs@.len() ==> (#[trigger] self.faqs@[k].id@) != support_id@,
    {
        let mut i: usize = 0;
        while i < self.faqs.len()
            invariant
                i <= self.faqs@.len(),
                forall|k: int| 0 <= k < i ==> (#[trigger] self.faqs@[k].id@) != support_id@,
            decreases self.faqs@.len() - i,
        {
            if self.faqs[i].id == *support_id {
                return Some(i);
            }
            i += 1;
        }
        None
    }

    /// The position of the rule row keyed `rule_id`, if one exists.
    fn rule_index(&self, rule_id: &String) -> (r: Option<usize>)
        ensures
            r matches Some(k) ==> k < self.rules@.len() && self.rules@[k as int].rule_id@
                == rule_id@,
            r is None ==> forall|k: int|
                0 <= k < self.rules@.len() ==> (#[trigger] self.rules@[k].rule_id@) != rule_id@,
    {
        let mut i: usize = 0;
        while i < self.rules.len()
            invariant
                i <= self.rules@.len(),
                forall|k: int| 0 <= k < i ==> (#[trigger] self.rules@[k].rule_id@) != rule_id@,
            decreases self.rules@.len() - i,
        {
            if self.rules[i].rule_id == *rule_id {
                return Some(i);
            }
            i += 1;
        }
        None
    }

    /// Looks up the FAQ answer keyed `support_id`; a missing row is
    /// the user-facing not-found outcome, not a fault.
    pub fn get_support_answer(&self, support_id: &String) -> (r: Result<String, Error>)
        requires
            config_wf(*self),
        ensures
            r is Ok <==> exists|k: int|
                0 <= k < self.faqs@.len() && (#[trigger] self.faqs@[k].id@) == support_id@,
            r matches Ok(ans) ==> exists|k: int|
                0 <= k < self.faqs@.len() && (#[trigger] self.faqs@[k].id@) == support_id@
                    && self.faqs@[k].answer@ == ans@,
            r is Err ==> r == Err::<String, Error>(Error::NotFound),
    {
        match self.faq_index(support_id) {
            Some(k) => Ok(self.faqs[k].answer.clone()),
            None => Err(Error::NotFound),
        }
    }

    /// Looks up the rule text keyed `rule_id`; a missing row is the
    /// user-facing not-found outcome, not a fault.
    pub fn get_rule(&self, rule_id: &String) -> (r: Result<String, Error>)
        requires
            config_wf(*self),
        ensures
            r is Ok <==> exists|k: int|
                0 <= k < self.rules@.len() && (#[trigger] self.rules@[k].rule_id@) == rule_id@,
            r matches Ok(text) ==> exists|k: int|
                0 <= k < self.rules@.len() && (#[trigger] self.rules@[k].rule_id@) == rule_id@
                    && self.rules@[k].rule_text@ == text@,
            r is Err ==> r == Err::<String, Error>(Error::NotFound),
    {
        match self.rule_index(rule_id) {
            Some(k) => Ok(self.rules[k].rule_text.clone()),
            None => Err(Error::NotFound),
        }
    }

    /// Inserts a FAQ row. A row under the same key already existing is
    /// the store's unique-key violation: the insert is rejected and
    /// nothing changes.
    pub fn create_support_faq(&mut self, support_id: String, answer: String) -> (r: Result<
        (),
        Error,
    >)
        requires
            config_wf(*old(self)),
        ensures
            config_wf(*final(self)),
            final(self).support_channel_ids@ == old(self).support_channel_ids@,
            final(self).support_role_ids@ == old(self).support_role_ids@,
            final(self).rules@ == old(self).rules@,
            r is Ok <==> forall|k: int|
                0 <= k < old(self).faqs@.len() ==> (#[trigger] old(self).faqs@[k].id@)
                    != support_id@,
            r is Err ==> r == Err::<(), Error>(Error::PersistenceFailure) && final(self).faqs@
                == old(self).faqs@,
            r is Ok ==> final(self).faqs@ == old(self).faqs@.push(
                Faq { id: support_id, answer: answer },
            ),
    {
        match self.faq_index(&support_id) {
            Some(_) => Err(Error::PersistenceFailure),
            None => {
                self.faqs.push(Faq { id: support_id, answer });
                Ok(())
            },
        }
    }

    /// Deletes the FAQ row keyed `support_id`; deleting a key that has
    /// no row changes nothing and still succeeds, as the store's
    /// delete statement would.
    pub fn delete_support_faq(&mut self, support_id: &String)
        requires
            config_wf(*old(self)),
        ensures
            config_wf(*final(self)),
            final(self).support_channel_ids@ == old(self).support_channel_ids@,
            final(self).support_role_ids@ == old(self).support_role_ids@,
            final(self).rules@ == old(self).rules@,
            (forall|k: int|
                0 <= k < old(self).faqs@.len() ==> (#[trigger] old(self).faqs@[k].id@)
                    != support_id@) ==> final(self).faqs@ == old(self).faqs@,
            (exists|k: int|
                0 <= k < old(self).faqs@.len() && (#[trigger] old(self).faqs@[k].id@)
                    == support_id@) ==> exists|k: int|
                0 <= k < old(self).faqs@.len() && (#[trigger] old(self).faqs@[k].id@) == support_id@
                    && final(self).faqs@ == old(self).faqs@.remove(k),
            forall|k: int|
                0 <= k < final(self).faqs@.len() ==> (#[trigger] final(self).faqs@[k].id@)
                    != support_id@,
    {
        match self.faq_index(support_id) {
            Some(k) => {
                self.faqs.remove(k);
                proof {
                    assert forall|j: int|
                        0 <= j < self.faqs@.len() implies (#[trigger] self.faqs@[j].id@)
                        != support_id@ by {
                        if j < k {
                            assert(self.faqs@[j] == old(self).faqs@[j]);
                        } else {
                            assert(self.faqs@[j] == old(self).faqs@[j + 1]);
                        }
                    }
                }
            },
            None => {},
        }
    }

    /// All FAQ rows of the guild, in stored order.
    pub fn get_all_support_faq(&self) -> (r: &Vec<Faq>)
        ensures
            r@ == self.faqs@,
    {
        &self.faqs
    }

    /// The guild's ordered support channels.
    pub fn get_support_channel_ids(&self) -> (r: &Vec<u64>)
        ensures
            r@ == self.support_channel_ids@,
    {
        &self.support_channel_ids
    }

    /// The guild's support roles.
    pub fn get_support_role_ids(&self) -> (r: &Vec<u64>)
        ensures
            r@ == self.support_role_ids@,
    {
        &self.support_role_ids
    }
}

} // verus!
