//! The mapping from workspace names to the icons shown in their place.

use vstd::prelude::*;

verus! {

/// One line of an icon mapping: the workspace called `name` is shown as `icon`.
#[derive(Debug, PartialEq, Eq)]
pub struct IconRule {
    pub name: String,
    pub icon: String,
}

impl Clone for IconRule {
    fn clone(&self) -> (copy: Self)
        ensures
            copy.name@ == self.name@,
            copy.icon@ == self.icon@,
    {
        IconRule { name: self.name.clone(), icon: self.icon.clone() }
    }
}

/// The mapping that a run of rules amounts to. Where two rules give the same
/// name, the later one counts.
pub open spec fn rules_map(rules: Seq<IconRule>) -> Map<Seq<char>, Seq<char>>
    decreases rules.len(),
{
    if rules.len() == 0 {
        Map::empty()
    } else {
        rules_map(rules.drop_last()).insert(rules.last().name@, rules.last().icon@)
    }
}

/// A name has an icon exactly if some rule gives it one, and the icon is that
/// of the last such rule.
pub proof fn lemma_rules_map_last_wins(rules: Seq<IconRule>, name: Seq<char>)
    ensures
        rules_map(rules).dom().contains(name) <==> exists|i: int|
            0 <= i < rules.len() && #[trigger] rules[i].name@ == name,
        forall|i: int|
            0 <= i < rules.len() && #[trigger] rules[i].name@ == name && (forall|k: int|
                i < k < rules.len() ==> #[trigger] rules[k].name@ != name) ==> rules_map(
                rules,
            )[name] == rules[i].icon@,
    decreases rules.len(),
{
    if rules.len() > 0 {
        let front = rules.drop_last();
        lemma_rules_map_last_wins(front, name);
        if rules.last().name@ == name {
            assert(rules[rules.len() - 1].name@ == name);
        } else {
            if rules_map(front).dom().contains(name) {
                let i = choose|i: int| 0 <= i < front.len() && #[trigger] front[i].name@ == name;
                assert(rules[i].name@ == name);
            }
            if exists|i: int| 0 <= i < rules.len() && #[trigger] rules[i].name@ == name {
                let i = choose|i: int| 0 <= i < rules.len() && #[trigger] rules[i].name@ == name;
                assert(front[i].name@ == name);
            }
        }
        assert forall|i: int|
            0 <= i < rules.len() && #[trigger] rules[i].name@ == name && (forall|k: int|
                i < k < rules.len() ==> #[trigger] rules[k].name@ != name) implies rules_map(
            rules,
        )[name] == rules[i].icon@ by {
            if i < rules.len() - 1 {
                assert(rules[rules.len() - 1].name@ != name);
                assert(front[i].name@ == name);
                assert forall|k: int| i < k < front.len() implies #[trigger] front[k].name@
                    != name by {
                    assert(rules[k].name@ != name);
                }
            }
        }
    }
}

/// An unordered mapping from workspace names to icon texts.
#[derive(Debug)]
pub struct IconMap {
    rules: Vec<IconRule>,
}

impl View for IconMap {
    type V = Map<Seq<char>, Seq<char>>;

    closed spec fn view(&self) -> Map<Seq<char>, Seq<char>> {
        rules_map(self.rules@)
    }
}

impl IconMap {
    /// The mapping that gives no workspace an icon.
    pub fn new() -> (icons: IconMap)
        ensures
            icons@ == Map::<Seq<char>, Seq<char>>::empty(),
    {
        IconMap { rules: Vec::new() }
    }

    /// Gives the workspaces called `name` the icon `icon`, in place of any
    /// icon that the name had before.
    pub fn insert(&mut self, name: String, icon: String)
        ensures
            final(self)@ == old(self)@.insert(name@, icon@),
    {
        let ghost before = self.rules@;
        self.rules.push(IconRule { name, icon });
        assert(self.rules@.drop_last() =~= before);
    }

    /// The icon that `name` has, if it has one.
    pub fn get(&self, name: &String) -> (icon: Option<&String>)
        ensures
            match icon {
                Some(text) => self@.dom().contains(name@) && text@ == self@[name@],
                None => !self@.dom().contains(name@),
            },
    {
        let mut found: Option<&String> = None;
        let mut i: usize = 0;
        while i < self.rules.len()
            invariant
                i <= self.rules.len(),
                match found {
                    Some(text) => rules_map(self.rules@.take(i as int)).dom().contains(name@)
                        && text@ == rules_map(self.rules@.take(i as int))[name@],
                    None => !rules_map(self.rules@.take(i as int)).dom().contains(name@),
                },
            decreases self.rules.len() - i,
        {
            assert(self.rules@.take(i + 1).drop_last() =~= self.rules@.take(i as int));
            if self.rules[i].name == *name {
                found = Some(&self.rules[i].icon);
            }
            i += 1;
        }
        assert(self.rules@.take(i as int) =~= self.rules@);
        found
    }
}

impl Default for IconMap {
    fn default() -> (icons: IconMap)
        ensures
            icons@ == Map::<Seq<char>, Seq<char>>::empty(),
    {
        IconMap::new()
    }
}

impl Clone for IconMap {
    fn clone(&self) -> (copy: Self)
        ensures
            copy@ == self@,
    {
        let mut rules: Vec<IconRule> = Vec::new();
        let mut i: usize = 0;
        while i < self.rules.len()
            invariant
                i <= self.rules.len(),
                rules.len() == i,
                rules_map(rules@) == rules_map(self.rules@.take(i as int)),
            decreases self.rules.len() - i,
        {
            let ghost before = rules@;
            assert(self.rules@.take(i + 1).drop_last() =~= self.rules@.take(i as int));
            rules.push(self.rules[i].clone());
            assert(rules@.drop_last() =~= before);
            i += 1;
        }
        assert(self.rules@.take(i as int) =~= self.rules@);
        IconMap { rules }
    }
}

} // verus!
