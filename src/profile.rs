use vstd::prelude::*;

verus! {

/// A named lighting configuration: one color per keyboard zone and the
/// identifier of the selected built-in effect.
pub struct Profile {
    pub name: String,
    pub rgb_zones: [[u8; 3]; 4],
    pub effect: u32,
}

impl Profile {
    pub fn new(name: String, rgb_zones: [[u8; 3]; 4], effect: u32) -> (r: Profile)
        ensures
            r == (Profile { name, rgb_zones, effect }),
    {
        Profile { name, rgb_zones, effect }
    }

    /// A field-for-field copy.
    pub fn duplicate(&self) -> (r: Profile)
        ensures
            r == *self,
    {
        Profile { name: self.name.clone(), rgb_zones: self.rgb_zones, effect: self.effect }
    }
}

/// The profile a session starts with when nothing else is given.
pub open spec fn is_default_profile(p: Profile) -> bool {
    &&& p.name@ == "Profile"@
    &&& p.rgb_zones == [[0u8, 0u8, 0u8], [0u8, 0u8, 0u8], [0u8, 0u8, 0u8], [0u8, 0u8, 0u8]]
    &&& p.effect == 0
}

impl Default for Profile {
    fn default() -> (r: Profile)
        ensures
            is_default_profile(r),
    {
        Profile {
            name: "Profile".to_owned(),
            rgb_zones: [[0u8, 0u8, 0u8], [0u8, 0u8, 0u8], [0u8, 0u8, 0u8], [0u8, 0u8, 0u8]],
            effect: 0,
        }
    }
}

/// The ordered list of profiles the user has; its order is the cycle order.
pub struct ProfileList {
    pub profiles: Vec<Profile>,
}

/// `i` is the first position in `s` whose profile is named `name`.
pub open spec fn is_first_named(s: Seq<Profile>, name: Seq<char>, i: int) -> bool {
    &&& 0 <= i < s.len()
    &&& s[i].name@ == name
    &&& forall|j: int| 0 <= j < i ==> s[j].name@ != name
}

/// Some profile of `s` is named `name`.
pub open spec fn has_name(s: Seq<Profile>, name: Seq<char>) -> bool {
    exists|i: int| 0 <= i < s.len() && s[i].name@ == name
}

/// No two profiles of `s` share a name.
pub open spec fn names_unique(s: Seq<Profile>) -> bool {
    forall|i: int, j: int| 0 <= i < s.len() && 0 <= j < s.len() && i != j ==> s[i].name@ != s[j].name@
}

/// The position after `i` in a list of length `n`, wrapping from the last to
/// the first.
pub open spec fn next_index(i: int, n: int) -> int {
    if i == n - 1 {
        0
    } else {
        i + 1
    }
}

/// The profile that becomes active when cycling from `active` through `s`:
/// the one after the first profile that shares `active`'s name, or `active`
/// itself when no profile has that name.
pub open spec fn cycled(s: Seq<Profile>, active: Profile) -> Profile {
    if has_name(s, active.name@) {
        s[next_index(choose|i: int| is_first_named(s, active.name@, i), s.len() as int)]
    } else {
        active
    }
}

/// `active` after cycling `m` times.
pub open spec fn cycled_times(s: Seq<Profile>, active: Profile, m: nat) -> Profile
    decreases m,
{
    if m == 0 {
        active
    } else {
        cycled(s, cycled_times(s, active, (m - 1) as nat))
    }
}

proof fn lemma_first_named_exists(s: Seq<Profile>, name: Seq<char>)
    requires
        has_name(s, name),
    ensures
        exists|i: int| is_first_named(s, name, i),
    decreases s.len(),
{
    if s[s.len() - 1].name@ == name && !has_name(s.drop_last(), name) {
        assert forall|j: int| 0 <= j < s.len() - 1 implies s[j].name@ != name by {
            if s[j].name@ == name {
                assert(s.drop_last()[j] == s[j]);
            }
        }
        assert(is_first_named(s, name, s.len() - 1));
    } else {
        let k = choose|k: int| 0 <= k < s.len() && s[k].name@ == name;
        if k == s.len() - 1 {
        } else {
            assert(s.drop_last()[k] == s[k]);
        }
        assert(has_name(s.drop_last(), name));
        lemma_first_named_exists(s.drop_last(), name);
        let i = choose|i: int| is_first_named(s.drop_last(), name, i);
        assert forall|j: int| 0 <= j < i implies s[j].name@ != name by {
            assert(s.drop_last()[j] == s[j]);
        }
        assert(s.drop_last()[i] == s[i]);
        assert(is_first_named(s, name, i));
    }
}

/// With unique names, cycling from the profile at `k` gives the next one.
proof fn lemma_cycled_at(s: Seq<Profile>, k: int)
    requires
        names_unique(s),
        0 <= k < s.len(),
    ensures
        cycled(s, s[k]) == s[next_index(k, s.len() as int)],
{
    assert(has_name(s, s[k].name@));
    lemma_first_named_exists(s, s[k].name@);
    let i = choose|i: int| is_first_named(s, s[k].name@, i);
    assert(i == k);
}

spec fn index_after(k: int, n: int, m: nat) -> int
    decreases m,
{
    if m == 0 {
        k
    } else {
        next_index(index_after(k, n, (m - 1) as nat), n)
    }
}

proof fn lemma_cycled_times_index(s: Seq<Profile>, k: int, m: nat)
    requires
        names_unique(s),
        0 <= k < s.len(),
    ensures
        0 <= index_after(k, s.len() as int, m) < s.len(),
        cycled_times(s, s[k], m) == s[index_after(k, s.len() as int, m)],
    decreases m,
{
    if m > 0 {
        lemma_cycled_times_index(s, k, (m - 1) as nat);
        lemma_cycled_at(s, index_after(k, s.len() as int, (m - 1) as nat));
    }
}

proof fn lemma_index_after_no_wrap(k: int, n: int, m: nat)
    requires
        0 <= k,
        k + m < n,
    ensures
        index_after(k, n, m) == k + m,
    decreases m,
{
    if m > 0 {
        lemma_index_after_no_wrap(k, n, (m - 1) as nat);
    }
}

proof fn lemma_index_after_compose(k: int, n: int, a: nat, b: nat)
    ensures
        index_after(k, n, a + b) == index_after(index_after(k, n, a), n, b),
    decreases b,
{
    if b > 0 {
        lemma_index_after_compose(k, n, a, (b - 1) as nat);
        assert((a + b - 1) as nat == a + (b - 1) as nat);
    }
}

proof fn lemma_index_after_full_turn(k: int, n: int)
    requires
        0 <= k < n,
    ensures
        index_after(k, n, n as nat) == k,
{
    let a = (n - 1 - k) as nat;
    lemma_index_after_no_wrap(k, n, a);
    assert(index_after(k, n, (a + 1) as nat) == 0);
    lemma_index_after_compose(k, n, (a + 1) as nat, k as nat);
    if k > 0 {
        lemma_index_after_no_wrap(0, n, k as nat);
    }
    assert((a + 1) as nat + k as nat == n as nat);
}

/// In a list of uniquely named profiles, cycling as many times as there are
/// profiles brings back the profile one started from.
pub proof fn lemma_cycle_period(s: Seq<Profile>, active: Profile)
    requires
        s.len() >= 1,
        names_unique(s),
        s.contains(active),
    ensures
        cycled_times(s, active, s.len()) == active,
{
    let k = choose|k: int| 0 <= k < s.len() && s[k] == active;
    lemma_cycled_times_index(s, k, s.len());
    lemma_index_after_full_turn(k, s.len() as int);
}

/// Cycling from a profile whose name no profile of the list has changes
/// nothing.
pub proof fn lemma_cycle_absent_is_noop(s: Seq<Profile>, active: Profile)
    requires
        !has_name(s, active.name@),
    ensures
        cycled(s, active) == active,
{
}

impl ProfileList {
    pub fn new(profiles: Vec<Profile>) -> (r: ProfileList)
        ensures
            r.profiles@ == profiles@,
    {
        ProfileList { profiles }
    }

    /// Position of the first profile named `name`.
    pub fn find_by_name(&self, name: &String) -> (r: Option<usize>)
        ensures
            match r {
                Some(i) => is_first_named(self.profiles@, name@, i as int),
                None => !has_name(self.profiles@, name@),
            },
    {
        let n = self.profiles.len();
        let mut i: usize = 0;
        while i < n
            invariant
                n == self.profiles@.len(),
                0 <= i <= n,
                forall|j: int| 0 <= j < i ==> self.profiles@[j].name@ != name@,
            decreases n - i,
        {
            if self.profiles[i].name == *name {
                return Some(i);
            }
            i = i + 1;
        }
        None
    }

    /// The profile that follows `active` in cycle order, or `None` when no
    /// profile shares `active`'s name.
    pub fn next_after(&self, active: &Profile) -> (r: Option<Profile>)
        ensures
            match r {
                Some(p) => has_name(self.profiles@, active.name@) && p == cycled(
                    self.profiles@,
                    *active,
                ),
                None => !has_name(self.profiles@, active.name@),
            },
    {
        match self.find_by_name(&active.name) {
            Some(i) => {
                let n = self.profiles.len();
                proof {
                    let s = self.profiles@;
                    assert(has_name(s, active.name@));
                    let c = choose|c: int| is_first_named(s, active.name@, c);
                    assert(c == i as int);
                }
                if i == n - 1 {
                    Some(self.profiles[0].duplicate())
                } else {
                    Some(self.profiles[i + 1].duplicate())
                }
            },
            None => None,
        }
    }
}

} // verus!
