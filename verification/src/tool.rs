//! The tool registry: typed descriptors keyed by unique name, with
//! last-registration-wins overwrite semantics.
use vstd::prelude::*;

verus! {

/// What one tool advertises to the model: its unique name, an optional
/// human description, the JSON-schema text of its argument type, and the
/// strictness flag.
pub struct ToolDescriptor {
    pub name: String,
    pub description: Option<String>,
    pub parameters: String,
    pub strict: bool,
}

pub ghost struct ToolDescriptorV {
    pub name: Seq<char>,
    pub description: Option<Seq<char>>,
    pub parameters: Seq<char>,
    pub strict: bool,
}

impl View for ToolDescriptor {
    type V = ToolDescriptorV;

    open spec fn view(&self) -> ToolDescriptorV {
        ToolDescriptorV {
            name: self.name@,
            description: match &self.description {
                Some(d) => Some(d@),
                None => None,
            },
            parameters: self.parameters@,
            strict: self.strict,
        }
    }
}

impl DeepView for ToolDescriptor {
    type V = ToolDescriptorV;

    open spec fn deep_view(&self) -> ToolDescriptorV {
        self@
    }
}

impl ToolDescriptor {
    /// An equal copy.
    pub fn duplicate(&self) -> (r: ToolDescriptor)
        ensures
            r@ == self@,
    {
        ToolDescriptor {
            name: self.name.clone(),
            description: match &self.description {
                Some(d) => Some(d.clone()),
                None => None,
            },
            parameters: self.parameters.clone(),
            strict: self.strict,
        }
    }
}

/// The descriptor a name resolves to: the latest entry of that name.
pub open spec fn spec_lookup(s: Seq<ToolDescriptorV>, n: Seq<char>) -> Option<ToolDescriptorV>
    decreases s.len(),
{
    if s.len() == 0 {
        None
    } else if s.last().name == n {
        Some(s.last())
    } else {
        spec_lookup(s.drop_last(), n)
    }
}

/// `s` with every entry named `n` removed, order kept.
pub open spec fn spec_drop_name(s: Seq<ToolDescriptorV>, n: Seq<char>) -> Seq<ToolDescriptorV>
    decreases s.len(),
{
    if s.len() == 0 {
        s
    } else {
        let rest = spec_drop_name(s.drop_last(), n);
        if s.last().name == n {
            rest
        } else {
            rest.push(s.last())
        }
    }
}

/// Registration replaces any entry of the same name and appends the new
/// descriptor.
pub open spec fn spec_register(s: Seq<ToolDescriptorV>, d: ToolDescriptorV) -> Seq<
    ToolDescriptorV,
> {
    spec_drop_name(s, d.name).push(d)
}

/// No two entries share a name.
pub open spec fn unique_names(s: Seq<ToolDescriptorV>) -> bool {
    forall|i: int, j: int| 0 <= i < j < s.len() ==> s[i].name != s[j].name
}

proof fn lemma_drop_name_absent(s: Seq<ToolDescriptorV>, n: Seq<char>)
    requires
        forall|k: int| 0 <= k < s.len() ==> s[k].name != n,
    ensures
        spec_drop_name(s, n) =~= s,
    decreases s.len(),
{
    if s.len() > 0 {
        lemma_drop_name_absent(s.drop_last(), n);
    }
}

proof fn lemma_drop_name_props(s: Seq<ToolDescriptorV>, n: Seq<char>)
    requires
        unique_names(s),
    ensures
        unique_names(spec_drop_name(s, n)),
        forall|k: int| 0 <= k < spec_drop_name(s, n).len()
            ==> spec_drop_name(s, n)[k].name != n,
        forall|k: int| 0 <= k < spec_drop_name(s, n).len()
            ==> s.contains(#[trigger] spec_drop_name(s, n)[k]),
    decreases s.len(),
{
    if s.len() > 0 {
        let prefix = s.drop_last();
        assert(unique_names(prefix));
        lemma_drop_name_props(prefix, n);
        let rest = spec_drop_name(prefix, n);
        assert(forall|k: int| 0 <= k < rest.len()
            ==> prefix.contains(#[trigger] rest[k]));
        assert forall|k: int| 0 <= k < rest.len() implies s.contains(#[trigger] rest[k]) by {
            let j = choose|j: int| 0 <= j < prefix.len() && prefix[j] == rest[k];
            assert(s[j] == rest[k]);
        }
        if s.last().name != n {
            let out = rest.push(s.last());
            assert(s.contains(s.last())) by {
                assert(s[s.len() - 1] == s.last());
            }
            assert forall|i: int, j: int| 0 <= i < j < out.len() implies out[i].name
                != out[j].name by {
                if j == out.len() - 1 {
                    let wi = choose|w: int| 0 <= w < prefix.len() && prefix[w] == rest[i];
                    assert(s[wi].name == out[i].name);
                    assert(s[wi].name != s.last().name);
                }
            }
            assert(forall|k: int| 0 <= k < out.len() ==> s.contains(#[trigger] out[k]));
        }
    }
}

proof fn lemma_lookup_drop_name(s: Seq<ToolDescriptorV>, n: Seq<char>, m: Seq<char>)
    requires
        m != n,
    ensures
        spec_lookup(spec_drop_name(s, n), m) == spec_lookup(s, m),
    decreases s.len(),
{
    if s.len() > 0 {
        let rest = spec_drop_name(s.drop_last(), n);
        lemma_lookup_drop_name(s.drop_last(), n, m);
        if s.last().name == n {
            assert(spec_drop_name(s, n) == rest);
        } else {
            let out = rest.push(s.last());
            assert(out.last() == s.last());
            assert(out.drop_last() =~= rest);
        }
    }
}

/// Law: after registering `d`, its name resolves to exactly `d`; so when
/// two tools are registered under one name, dispatch resolves to the one
/// registered last.
pub proof fn lemma_register_overwrites(
    s: Seq<ToolDescriptorV>,
    d1: ToolDescriptorV,
    d2: ToolDescriptorV,
)
    requires
        d1.name == d2.name,
    ensures
        spec_lookup(spec_register(s, d2), d2.name) == Some(d2),
        spec_lookup(spec_register(spec_register(s, d1), d2), d2.name) == Some(d2),
{
    let r1 = spec_register(s, d2);
    assert(r1.last() == d2);
    let r2 = spec_register(spec_register(s, d1), d2);
    assert(r2.last() == d2);
}

/// Law: registering one name leaves every other name's resolution
/// unchanged.
pub proof fn lemma_register_preserves_others(
    s: Seq<ToolDescriptorV>,
    d: ToolDescriptorV,
    n: Seq<char>,
)
    requires
        n != d.name,
    ensures
        spec_lookup(spec_register(s, d), n) == spec_lookup(s, n),
{
    let out = spec_register(s, d);
    assert(out.drop_last() =~= spec_drop_name(s, d.name));
    lemma_lookup_drop_name(s, d.name, n);
}

/// The registry: tool descriptors with pairwise distinct names. Building
/// it through [`ToolBox::add_tool`] keeps the invariant.
pub struct ToolBox {
    pub tools: Vec<ToolDescriptor>,
}

impl ToolBox {
    /// The registry invariant: names are unique.
    pub open spec fn wf(&self) -> bool {
        unique_names(self.tools.deep_view())
    }

    /// An empty registry.
    pub fn new() -> (r: ToolBox)
        ensures
            r.wf(),
            r.tools.deep_view() =~= Seq::<ToolDescriptorV>::empty(),
    {
        let r = ToolBox { tools: Vec::new() };
        proof {
            assert(r.tools.deep_view() =~= Seq::<ToolDescriptorV>::empty());
        }
        r
    }

    /// Adds a tool; a second registration under the same name overwrites
    /// the first.
    pub fn add_tool(&mut self, tool: ToolDescriptor)
        requires
            old(self).wf(),
        ensures
            final(self).wf(),
            final(self).tools.deep_view() == spec_register(old(self).tools.deep_view(), tool@),
    {
        let ghost s = self.tools.deep_view();
        let ghost n = tool@.name;
        let mut i: usize = 0;
        let mut found: bool = false;
        while i < self.tools.len() && !found
            invariant
                self == old(self),
                i <= s.len(),
                s == self.tools.deep_view(),
                n == tool@.name,
                !found ==> forall|k: int| 0 <= k < i ==> s[k].name != n,
                found ==> i < s.len() && s[i as int].name == n,
            decreases s.len() - i, (if found { 0int } else { 1int }),
        {
            proof {
                assert(s[i as int] == self.tools@[i as int]@);
            }
            if eq_tool_name(&self.tools[i], &tool) {
                found = true;
            } else {
                i = i + 1;
            }
        }
        proof {
            lemma_drop_name_props(s, n);
        }
        if found {
            proof {
                assert(forall|k: int| 0 <= k < s.len() && k != i
                    ==> s[k].name != n) by {
                    assert(forall|k: int| i < k < s.len() ==> s[i as int].name != s[k].name);
                }
                lemma_drop_at_unique(s, n, i as int);
            }
            self.tools.remove(i);
            proof {
                assert(self.tools.deep_view() =~= s.remove(i as int));
            }
        } else {
            proof {
                lemma_drop_name_absent(s, n);
            }
        }
        let ghost mid = self.tools.deep_view();
        self.tools.push(tool);
        proof {
            assert(self.tools.deep_view() =~= mid.push(tool@));
            assert(self.tools.deep_view() =~= spec_register(s, tool@));
            let out = self.tools.deep_view();
            let dropped = spec_drop_name(s, n);
            assert forall|a: int, b: int| 0 <= a < b < out.len() implies out[a].name
                != out[b].name by {
                if b == out.len() - 1 {
                    assert(out[a] == dropped[a]);
                    assert(dropped[a].name != n);
                }
            }
        }
    }

    /// Resolves a name to the descriptor registered last under it.
    pub fn lookup(&self, name: &str) -> (r: Option<&ToolDescriptor>)
        ensures
            match r {
                Some(d) => spec_lookup(self.tools.deep_view(), name@) == Some(d@),
                None => spec_lookup(self.tools.deep_view(), name@) is None,
            },
    {
        let ghost s = self.tools.deep_view();
        let mut j: usize = self.tools.len();
        proof {
            assert(s.take(j as int) =~= s);
        }
        while j > 0
            invariant
                j <= s.len(),
                s == self.tools.deep_view(),
                spec_lookup(s, name@) == spec_lookup(s.take(j as int), name@),
            decreases j,
        {
            proof {
                assert(s.take(j as int).last() == s[j - 1]);
                assert(s.take(j as int).drop_last() =~= s.take(j - 1));
            }
            let d = &self.tools[j - 1];
            if crate::text::eq_str(d.name.as_str(), name) {
                proof {
                    assert(s[j - 1].name == name@);
                    assert(spec_lookup(s.take(j as int), name@) == Some(s[j - 1]));
                }
                return Some(d);
            }
            j = j - 1;
        }
        proof {
            assert(s.take(0) =~= Seq::<ToolDescriptorV>::empty());
        }
        None
    }

    /// The catalog advertised to the model: a copy of every descriptor.
    /// Order carries no meaning to callers.
    pub fn openai_objects(&self) -> (r: Vec<ToolDescriptor>)
        ensures
            r.deep_view() == self.tools.deep_view(),
    {
        let mut r: Vec<ToolDescriptor> = Vec::new();
        let mut i: usize = 0;
        while i < self.tools.len()
            invariant
                i <= self.tools@.len(),
                r.deep_view() == self.tools.deep_view().take(i as int),
            decreases self.tools@.len() - i,
        {
            let ghost old_dv = r.deep_view();
            r.push(self.tools[i].duplicate());
            proof {
                let dv = self.tools.deep_view();
                assert(r.deep_view() =~= old_dv.push(self.tools@[i as int]@));
                assert(dv.take(i + 1) =~= dv.take(i as int).push(dv[i as int]));
                assert(dv[i as int] == self.tools@[i as int]@);
            }
            i = i + 1;
        }
        proof {
            assert(self.tools.deep_view().take(self.tools@.len() as int)
                =~= self.tools.deep_view());
        }
        r
    }
}

proof fn lemma_drop_at_unique(s: Seq<ToolDescriptorV>, n: Seq<char>, i: int)
    requires
        0 <= i < s.len(),
        s[i].name == n,
        forall|k: int| 0 <= k < s.len() && k != i ==> s[k].name != n,
    ensures
        spec_drop_name(s, n) =~= s.remove(i),
    decreases s.len(),
{
    if i == s.len() - 1 {
        assert(forall|k: int| 0 <= k < s.drop_last().len() ==> s.drop_last()[k].name != n);
        lemma_drop_name_absent(s.drop_last(), n);
        assert(s.remove(i) =~= s.drop_last());
    } else {
        assert(s.last().name != n);
        let prefix = s.drop_last();
        assert(prefix[i].name == n);
        lemma_drop_at_unique(prefix, n, i);
        assert(spec_drop_name(s, n) =~= prefix.remove(i).push(s.last()));
        assert(prefix.remove(i).push(s.last()) =~= s.remove(i));
    }
}

/// Compares the registered name of `a` with the name of `b`.
fn eq_tool_name(a: &ToolDescriptor, b: &ToolDescriptor) -> (r: bool)
    ensures
        r <==> a@.name == b@.name,
{
    crate::text::eq_str(a.name.as_str(), b.name.as_str())
}

} // verus!
