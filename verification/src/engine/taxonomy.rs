use vstd::prelude::*;
use crate::models::category::{Category, category_of_key, parse_category_string};
use crate::models::item::{InventoryItem, same_item};
use crate::text::{
    chars_of, lemma_split_first, owned, seq_eq, split_chars, split_spec, to_lower, trim_spec, unicode_lower,
};

verus! {

/// The rules file: each category name with the keywords that select it, in file order.
pub struct TaxonomyConfigFile {
    pub categories: Vec<(String, Vec<String>)>,
}

/// Deterministic Rule-Based Taxonomy Classification Engine
pub struct TaxonomyEngine {
    lookup: Vec<(String, Category)>,
}

/// The keyword table that a list of (keyword, category) entries denotes: later entries win.
pub open spec fn rules_map(v: Seq<(String, Category)>) -> Map<Seq<char>, Category>
    decreases v.len(),
{
    if v.len() == 0 {
        Map::empty()
    } else {
        rules_map(v.drop_last()).insert(v.last().0@, v.last().1)
    }
}

/// No keyword occurs twice in the table.
pub open spec fn distinct_keys(v: Seq<(String, Category)>) -> bool {
    forall|i: int, j: int| 0 <= i < j < v.len() ==> v[i].0@ != v[j].0@
}

proof fn lemma_rules_map_domain(v: Seq<(String, Category)>, k: Seq<char>)
    ensures
        rules_map(v).contains_key(k) <==> exists|i: int| 0 <= i < v.len() && v[i].0@ == k,
    decreases v.len(),
{
    if v.len() > 0 {
        lemma_rules_map_domain(v.drop_last(), k);
        if rules_map(v).contains_key(k) && v.last().0@ != k {
            let i = choose|i: int| 0 <= i < v.len() - 1 && v.drop_last()[i].0@ == k;
            assert(v[i].0@ == k);
        }
        if exists|i: int| 0 <= i < v.len() && v[i].0@ == k {
            let i = choose|i: int| 0 <= i < v.len() && v[i].0@ == k;
            if i < v.len() - 1 {
                assert(v.drop_last()[i].0@ == k);
            }
        }
    }
}

proof fn lemma_rules_map_value(v: Seq<(String, Category)>, i: int)
    requires
        distinct_keys(v),
        0 <= i < v.len(),
    ensures
        rules_map(v).contains_key(v[i].0@),
        rules_map(v)[v[i].0@] == v[i].1,
    decreases v.len(),
{
    if i < v.len() - 1 {
        let w = v.drop_last();
        assert(w[i] == v[i]);
        lemma_rules_map_value(w, i);
    }
}

proof fn lemma_rules_map_update(v: Seq<(String, Category)>, i: int, e: (String, Category))
    requires
        distinct_keys(v),
        0 <= i < v.len(),
        v[i].0@ == e.0@,
    ensures
        rules_map(v.update(i, e)) == rules_map(v).insert(e.0@, e.1),
        distinct_keys(v.update(i, e)),
    decreases v.len(),
{
    let u = v.update(i, e);
    if i == v.len() - 1 {
        assert(u.drop_last() =~= v.drop_last());
        lemma_rules_map_domain(v.drop_last(), e.0@);
        assert(!rules_map(v.drop_last()).contains_key(e.0@));
        assert(rules_map(u) =~= rules_map(v).insert(e.0@, e.1));
    } else {
        let w = v.drop_last();
        assert(u.drop_last() =~= w.update(i, e));
        lemma_rules_map_update(w, i, e);
        assert(v.last().0@ != e.0@);
        assert(rules_map(u) =~= rules_map(v).insert(e.0@, e.1));
    }
}

/// The built-in keyword table used when no rules file is present.
pub open spec fn default_rules() -> Map<Seq<char>, Category> {
    Map::<Seq<char>, Category>::empty()
        .insert("ruby"@, Category::LanguagesAndRuntimes)
        .insert("rust"@, Category::LanguagesAndRuntimes)
        .insert("go"@, Category::LanguagesAndRuntimes)
        .insert("python"@, Category::LanguagesAndRuntimes)
        .insert("node"@, Category::LanguagesAndRuntimes)
        .insert("bun"@, Category::LanguagesAndRuntimes)
        .insert("deno"@, Category::LanguagesAndRuntimes)
        .insert("postgresql"@, Category::DatabasesAndStorage)
        .insert("postgres"@, Category::DatabasesAndStorage)
        .insert("redis"@, Category::DatabasesAndStorage)
        .insert("sqlite"@, Category::DatabasesAndStorage)
        .insert("ripgrep"@, Category::CliDeveloperTools)
        .insert("fd"@, Category::CliDeveloperTools)
        .insert("bat"@, Category::CliDeveloperTools)
        .insert("fzf"@, Category::CliDeveloperTools)
        .insert("jq"@, Category::CliDeveloperTools)
        .insert("gh"@, Category::CliDeveloperTools)
        .insert("tmux"@, Category::CliDeveloperTools)
        .insert("neovim"@, Category::CliDeveloperTools)
        .insert("docker"@, Category::InfrastructureAndCloud)
        .insert("kubectl"@, Category::InfrastructureAndCloud)
        .insert("terraform"@, Category::InfrastructureAndCloud)
        .insert("mise"@, Category::BuildAndPackageManagers)
        .insert("cargo"@, Category::BuildAndPackageManagers)
        .insert("brew"@, Category::BuildAndPackageManagers)
        .insert("uv"@, Category::BuildAndPackageManagers)
}

/// The table after adding each keyword of `kws` (lower-cased) for category `c`, in order.
pub open spec fn add_keywords(m: Map<Seq<char>, Category>, kws: Seq<String>, c: Category) -> Map<
    Seq<char>,
    Category,
>
    decreases kws.len(),
{
    if kws.len() == 0 {
        m
    } else {
        add_keywords(m, kws.drop_last(), c).insert(unicode_lower(kws.last()@), c)
    }
}

/// The keyword table that a rules file denotes: its entries taken in order, each
/// category name parsed, each keyword lower-cased; a later keyword rule wins.
pub open spec fn config_rules(entries: Seq<(String, Vec<String>)>) -> Map<Seq<char>, Category>
    decreases entries.len(),
{
    if entries.len() == 0 {
        Map::empty()
    } else {
        let e = entries.last();
        add_keywords(
            config_rules(entries.drop_last()),
            e.1@,
            category_of_key(unicode_lower(trim_spec(e.0@))),
        )
    }
}

/// The separators that split a package name into tokens.
pub open spec fn name_separators() -> Seq<char> {
    seq!['@', '-', '_', ' ']
}

/// The separators that split a package id into tokens.
pub open spec fn id_separators() -> Seq<char> {
    seq![':', '@', '-', '_']
}

/// The category of the first token that the table knows, if any.
pub open spec fn first_known(m: Map<Seq<char>, Category>, toks: Seq<Seq<char>>) -> Option<Category>
    decreases toks.len(),
{
    if toks.len() == 0 {
        None
    } else if m.contains_key(toks[0]) {
        Some(m[toks[0]])
    } else {
        first_known(m, toks.drop_first())
    }
}

/// Classification of a lower-cased name and id: the whole name, then the name's
/// tokens, then the id's tokens, else `Uncategorized`.
pub open spec fn classify_spec(m: Map<Seq<char>, Category>, name: Seq<char>, id: Seq<char>) -> Category {
    if m.contains_key(name) {
        m[name]
    } else {
        match first_known(m, split_spec(name, name_separators())) {
            Some(c) => c,
            None => match first_known(m, split_spec(id, id_separators())) {
                Some(c) => c,
                None => Category::Uncategorized,
            },
        }
    }
}

impl TaxonomyEngine {
    #[verifier::type_invariant]
    spec fn well_formed(self) -> bool {
        distinct_keys(self.lookup@)
    }

    /// The keyword table.
    pub closed spec fn rules(&self) -> Map<Seq<char>, Category> {
        rules_map(self.lookup@)
    }

    fn empty() -> (r: Self)
        ensures
            r.rules() == Map::<Seq<char>, Category>::empty(),
    {
        TaxonomyEngine { lookup: Vec::new() }
    }

    /// Looks a keyword up in the table.
    pub fn lookup_chars(&self, key: &[char]) -> (r: Option<Category>)
        ensures
            r is Some <==> self.rules().contains_key(key@),
            r matches Some(c) ==> self.rules()[key@] == c,
    {
        proof {
            use_type_invariant(self);
        }
        let mut i: usize = 0;
        while i < self.lookup.len()
            invariant
                i <= self.lookup@.len(),
                distinct_keys(self.lookup@),
                forall|j: int| 0 <= j < i ==> self.lookup@[j].0@ != key@,
            decreases self.lookup@.len() - i,
        {
            let k = chars_of(self.lookup[i].0.as_str());
            if seq_eq(&k, key) {
                proof {
                    lemma_rules_map_value(self.lookup@, i as int);
                }
                return Some(self.lookup[i].1);
            }
            i = i + 1;
        }
        proof {
            lemma_rules_map_domain(self.lookup@, key@);
        }
        None
    }

    /// Adds a keyword rule, replacing an earlier rule for the same keyword.
    pub fn insert_rule(&mut self, key: String, cat: Category)
        ensures
            final(self).rules() == old(self).rules().insert(key@, cat),
    {
        proof {
            use_type_invariant(&*self);
        }
        let mut v: Vec<(String, Category)> = Vec::new();
        std::mem::swap(&mut v, &mut self.lookup);
        insert_rule_into(&mut v, key, cat);
        self.lookup = v;
    }
}

/// Adds a keyword rule to a table with distinct keys, replacing an earlier rule for the same keyword.
fn insert_rule_into(lookup: &mut Vec<(String, Category)>, key: String, cat: Category)
    requires
        distinct_keys(old(lookup)@),
    ensures
        distinct_keys(final(lookup)@),
        rules_map(final(lookup)@) == rules_map(old(lookup)@).insert(key@, cat),
{
    let kc = chars_of(key.as_str());
    let mut i: usize = 0;
    while i < lookup.len()
        invariant
            i <= lookup@.len(),
            lookup@ == old(lookup)@,
            distinct_keys(lookup@),
            kc@ == key@,
            forall|j: int| 0 <= j < i ==> lookup@[j].0@ != key@,
        decreases lookup@.len() - i,
    {
        let k = chars_of(lookup[i].0.as_str());
        if seq_eq(&k, &kc) {
            proof {
                lemma_rules_map_update(lookup@, i as int, (key, cat));
            }
            lookup.set(i, (key, cat));
            return;
        }
        i = i + 1;
    }
    let ghost before = lookup@;
    lookup.push((key, cat));
    proof {
        assert(lookup@.drop_last() =~= before);
        assert(distinct_keys(lookup@)) by {
            assert forall|a: int, b: int| 0 <= a < b < lookup@.len() implies lookup@[a].0@
                != lookup@[b].0@ by {
                if b == lookup@.len() - 1 {
                    assert(before[a].0@ != key@);
                } else {
                    assert(before[a] == lookup@[a] && before[b] == lookup@[b]);
                }
            }
        }
    }
}


impl TaxonomyEngine {
    /// The built-in keyword table.
    pub fn default_engine() -> (r: Self)
        ensures
            r.rules() == default_rules(),
    {
        let mut e = Self::empty();
        e.insert_rule(owned("ruby"), Category::LanguagesAndRuntimes);
        e.insert_rule(owned("rust"), Category::LanguagesAndRuntimes);
        e.insert_rule(owned("go"), Category::LanguagesAndRuntimes);
        e.insert_rule(owned("python"), Category::LanguagesAndRuntimes);
        e.insert_rule(owned("node"), Category::LanguagesAndRuntimes);
        e.insert_rule(owned("bun"), Category::LanguagesAndRuntimes);
        e.insert_rule(owned("deno"), Category::LanguagesAndRuntimes);
        e.insert_rule(owned("postgresql"), Category::DatabasesAndStorage);
        e.insert_rule(owned("postgres"), Category::DatabasesAndStorage);
        e.insert_rule(owned("redis"), Category::DatabasesAndStorage);
        e.insert_rule(owned("sqlite"), Category::DatabasesAndStorage);
        e.insert_rule(owned("ripgrep"), Category::CliDeveloperTools);
        e.insert_rule(owned("fd"), Category::CliDeveloperTools);
        e.insert_rule(owned("bat"), Category::CliDeveloperTools);
        e.insert_rule(owned("fzf"), Category::CliDeveloperTools);
        e.insert_rule(owned("jq"), Category::CliDeveloperTools);
        e.insert_rule(owned("gh"), Category::CliDeveloperTools);
        e.insert_rule(owned("tmux"), Category::CliDeveloperTools);
        e.insert_rule(owned("neovim"), Category::CliDeveloperTools);
        e.insert_rule(owned("docker"), Category::InfrastructureAndCloud);
        e.insert_rule(owned("kubectl"), Category::InfrastructureAndCloud);
        e.insert_rule(owned("terraform"), Category::InfrastructureAndCloud);
        e.insert_rule(owned("mise"), Category::BuildAndPackageManagers);
        e.insert_rule(owned("cargo"), Category::BuildAndPackageManagers);
        e.insert_rule(owned("brew"), Category::BuildAndPackageManagers);
        e.insert_rule(owned("uv"), Category::BuildAndPackageManagers);
        e
    }

    /// Builds the keyword table from a rules file.
    pub fn from_config(config: TaxonomyConfigFile) -> (r: Self)
        ensures
            r.rules() == config_rules(config.categories@),
    {
        let mut e = Self::empty();
        let mut i: usize = 0;
        while i < config.categories.len()
            invariant
                i <= config.categories@.len(),
                e.rules() == config_rules(config.categories@.take(i as int)),
            decreases config.categories@.len() - i,
        {
            let cat = parse_category_string(config.categories[i].0.as_str());
            let ghost before = e.rules();
            let mut k: usize = 0;
            while k < config.categories[i].1.len()
                invariant
                    i < config.categories@.len(),
                    k <= config.categories@[i as int].1@.len(),
                    e.rules() == add_keywords(before, config.categories@[i as int].1@.take(k as int), cat),
                decreases config.categories@[i as int].1@.len() - k,
            {
                let kw = to_lower(config.categories[i].1[k].as_str());
                e.insert_rule(kw, cat);
                proof {
                    let kws = config.categories@[i as int].1@;
                    assert(kws.take(k + 1).drop_last() =~= kws.take(k as int));
                }
                k = k + 1;
            }
            proof {
                let kws = config.categories@[i as int].1@;
                assert(kws.take(k as int) =~= kws);
                assert(config.categories@.take(i + 1).drop_last() =~= config.categories@.take(i as int));
            }
            i = i + 1;
        }
        proof {
            assert(config.categories@.take(i as int) =~= config.categories@);
        }
        e
    }

    /// Uses the rules file when it could be read and parsed, else the built-in table.
    pub fn from_optional_config(config: Option<TaxonomyConfigFile>) -> (r: Self)
        ensures
            config matches Some(c) ==> r.rules() == config_rules(c.categories@),
            config is None ==> r.rules() == default_rules(),
    {
        match config {
            Some(c) => Self::from_config(c),
            None => Self::default_engine(),
        }
    }

    /// The category of the first token of `toks` that the table knows.
    fn first_known_token(&self, toks: &Vec<Vec<char>>) -> (r: Option<Category>)
        ensures
            r == first_known(self.rules(), toks@.map_values(|t: Vec<char>| t@)),
    {
        let ghost ts = toks@.map_values(|t: Vec<char>| t@);
        assert(ts.skip(0) =~= ts);
        let mut i: usize = 0;
        while i < toks.len()
            invariant
                i <= toks@.len(),
                ts == toks@.map_values(|t: Vec<char>| t@),
                first_known(self.rules(), ts) == first_known(self.rules(), ts.skip(i as int)),
            decreases toks@.len() - i,
        {
            proof {
                assert(ts.skip(i as int)[0] == toks@[i as int]@);
                assert(ts.skip(i as int).drop_first() =~= ts.skip(i + 1));
            }
            match self.lookup_chars(toks[i].as_slice()) {
                Some(c) => {
                    return Some(c);
                },
                None => {},
            }
            i = i + 1;
        }
        proof {
            assert(ts.skip(i as int).len() == 0);
        }
        None
    }

    /// Classifies an already lower-cased name and id.
    pub fn classify_normalized(&self, norm_name: &str, norm_id: &str) -> (r: Category)
        ensures
            r == classify_spec(self.rules(), norm_name@, norm_id@),
    {
        let n = chars_of(norm_name);
        if let Some(c) = self.lookup_chars(n.as_slice()) {
            return c;
        }
        let name_seps = vec!['@', '-', '_', ' '];
        assert(name_seps@ =~= name_separators());
        let toks = split_chars(n.as_slice(), name_seps.as_slice());
        proof {
            assert(toks@.map_values(|t: Vec<char>| t@) =~= split_spec(n@, name_separators()));
        }
        if let Some(c) = self.first_known_token(&toks) {
            return c;
        }
        let d = chars_of(norm_id);
        let id_seps = vec![':', '@', '-', '_'];
        assert(id_seps@ =~= id_separators());
        let id_toks = split_chars(d.as_slice(), id_seps.as_slice());
        proof {
            assert(id_toks@.map_values(|t: Vec<char>| t@) =~= split_spec(d@, id_separators()));
        }
        if let Some(c) = self.first_known_token(&id_toks) {
            return c;
        }
        Category::Uncategorized
    }

    /// Classifies an item's name and ID deterministically
    pub fn classify(&self, name: &str, id: &str) -> (r: Category)
        ensures
            r == classify_spec(self.rules(), unicode_lower(name@), unicode_lower(id@)),
    {
        let n = to_lower(name);
        let d = to_lower(id);
        self.classify_normalized(n.as_str(), d.as_str())
    }
}

impl TaxonomyEngine {
    /// Sets each item's category to what its name and ID classify as; the items
    /// are otherwise unchanged.
    pub fn classify_all(&self, items: &mut Vec<InventoryItem>)
        ensures
            final(items)@.len() == old(items)@.len(),
            forall|k: int| #![trigger final(items)@[k]] 0 <= k < final(items)@.len() ==> {
                let (a, b) = (final(items)@[k], old(items)@[k]);
                &&& a.category == classify_spec(self.rules(), unicode_lower(b.name@), unicode_lower(b.id@))
                &&& same_item(a, InventoryItem { category: a.category, ..b })
            },
    {
        let mut i: usize = 0;
        while i < items.len()
            invariant
                i <= items@.len(),
                items@.len() == old(items)@.len(),
                forall|k: int| #![trigger items@[k]] 0 <= k < i ==> {
                    let (a, b) = (items@[k], old(items)@[k]);
                    &&& a.category == classify_spec(self.rules(), unicode_lower(b.name@), unicode_lower(b.id@))
                    &&& same_item(a, InventoryItem { category: a.category, ..b })
                },
                forall|k: int| i <= k < items@.len() ==> #[trigger] items@[k] == old(items)@[k],
            decreases items@.len() - i,
        {
            let c = self.classify(items[i].name.as_str(), items[i].id.as_str());
            let mut it = items[i].clone();
            it.category = c;
            items.set(i, it);
            i = i + 1;
        }
    }
}

/// A name is classified by its tokens: when a name is a known keyword `x`, then
/// one of `@`, `-`, `_` or space, then anything, and the whole name is not a
/// keyword, it takes `x`'s category, whatever the id says (for example
/// `docker-compose` takes the category of `docker`).
pub proof fn name_token_decides(
    m: Map<Seq<char>, Category>,
    x: Seq<char>,
    sep: char,
    y: Seq<char>,
    id: Seq<char>,
)
    requires
        sep == '@' || sep == '-' || sep == '_' || sep == ' ',
        forall|i: int| 0 <= i < x.len() ==> x[i] != '@' && x[i] != '-' && x[i] != '_' && x[i] != ' ',
        m.contains_key(x),
        !m.contains_key(x + seq![sep] + y),
    ensures
        classify_spec(m, x + seq![sep] + y, id) == m[x],
{
    let seps = name_separators();
    assert(seps.contains(sep)) by {
        if sep == '@' {
            assert(seps[0] == sep);
        } else if sep == '-' {
            assert(seps[1] == sep);
        } else if sep == '_' {
            assert(seps[2] == sep);
        } else {
            assert(seps[3] == sep);
        }
    }
    assert forall|i: int| 0 <= i < x.len() implies !seps.contains(#[trigger] x[i]) by {
        if seps.contains(x[i]) {
            let k = choose|k: int| 0 <= k < seps.len() && seps[k] == x[i];
        }
    }
    lemma_split_first(x, sep, y, seps);
    let toks = split_spec(x + seq![sep] + y, seps);
    assert(toks[0] == x);
    assert(first_known(m, toks) == Some(m[x]));
}

} // verus!
