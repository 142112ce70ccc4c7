//! Identifier resolution: caller-supplied table and column names are matched
//! case-insensitively against live schema metadata, yielding validated
//! identifiers. No caller string becomes a `TableName` or `ColumnName` except
//! through successful resolution, which is what makes embedding them into SQL
//! statement text safe.

use vstd::prelude::*;

verus! {

/// What `str::to_lowercase` returns for a given character sequence.
pub uninterp spec fn lower_of(s: Seq<char>) -> Seq<char>;

/// Relies on `str::to_lowercase`: the result depends on the characters alone.
#[verifier::external_body]
fn lowercase(s: &str) -> (r: String)
    ensures
        r@ == lower_of(s@),
{
    s.to_lowercase()
}

/// Case-insensitive equality of two identifier spellings.
pub open spec fn ci_eq(a: Seq<char>, b: Seq<char>) -> bool {
    lower_of(a) == lower_of(b)
}

/// A validated identifier naming an existing table; constructed only by
/// successful resolution against live schema metadata.
#[derive(Debug, Clone)]
pub struct TableName {
    name: String,
}

impl View for TableName {
    type V = Seq<char>;

    closed spec fn view(&self) -> Seq<char> {
        self.name@
    }
}

impl TableName {
    /// Only the schema layer builds table names, from metadata the store
    /// itself reported or from a successful resolution.
    pub(crate) fn from_catalog(name: String) -> (r: TableName)
        ensures
            r@ == name@,
    {
        TableName { name }
    }

    pub fn as_str(&self) -> (r: &str)
        ensures
            r@ == self@,
    {
        self.name.as_str()
    }
}

/// A validated identifier naming an existing column of a specific table;
/// same construction rule as `TableName`.
#[derive(Debug, Clone, PartialEq, Eq, Hash)]
pub struct ColumnName {
    name: String,
}

impl View for ColumnName {
    type V = Seq<char>;

    closed spec fn view(&self) -> Seq<char> {
        self.name@
    }
}

impl ColumnName {
    pub(crate) fn from_catalog(name: String) -> (r: ColumnName)
        ensures
            r@ == name@,
    {
        ColumnName { name }
    }

    pub fn as_str(&self) -> (r: &str)
        ensures
            r@ == self@,
    {
        self.name.as_str()
    }

    /// An equality-preserving copy; the derived clone carries no
    /// specification.
    pub fn duplicate(&self) -> (r: ColumnName)
        ensures
            r == *self,
    {
        ColumnName { name: self.name.clone() }
    }
}

/// A list of validated column names.
pub type Columns = Vec<ColumnName>;

/// The spellings of a list of validated column names, in order.
pub open spec fn names_view(cols: Seq<ColumnName>) -> Seq<Seq<char>> {
    cols.map_values(|c: ColumnName| c@)
}

/// The canonical stored spelling for `raw`: the first name in `names` that
/// matches it case-insensitively, if any.
pub open spec fn resolve_spec(names: Seq<Seq<char>>, raw: Seq<char>) -> Option<Seq<char>>
    decreases names.len(),
{
    if names.len() == 0 {
        None
    } else if ci_eq(names[0], raw) {
        Some(names[0])
    } else {
        resolve_spec(names.drop_first(), raw)
    }
}

/// Whether some name in `names` matches `raw` case-insensitively.
pub open spec fn has_ci_match(names: Seq<Seq<char>>, raw: Seq<char>) -> bool {
    resolve_spec(names, raw) is Some
}

/// Whether `names[i]` is the first case-insensitive match for `raw`.
pub open spec fn is_first_ci_match(names: Seq<Seq<char>>, raw: Seq<char>, i: int) -> bool {
    &&& 0 <= i < names.len()
    &&& ci_eq(names[i], raw)
    &&& forall|j: int| 0 <= j < i ==> !ci_eq(#[trigger] names[j], raw)
}

/// Resolution returns a canonical stored name exactly when some stored name
/// matches the submitted spelling case-insensitively, and what it returns is
/// the first such stored name, spelled as the store spells it.
pub proof fn lemma_resolve_characterization(names: Seq<Seq<char>>, raw: Seq<char>)
    ensures
        (resolve_spec(names, raw) is Some) <==> exists|i: int|
            0 <= i < names.len() && ci_eq(#[trigger] names[i], raw),
        forall|c: Seq<char>|
            resolve_spec(names, raw) == Some(c) ==> exists|i: int|
                #[trigger] is_first_ci_match(names, raw, i) && names[i] == c,
    decreases names.len(),
{
    if names.len() == 0 {
    } else if ci_eq(names[0], raw) {
        assert forall|c: Seq<char>| resolve_spec(names, raw) == Some(c) implies exists|i: int|
            #[trigger] is_first_ci_match(names, raw, i) && names[i] == c by {
            assert(is_first_ci_match(names, raw, 0) && names[0] == c);
        }
    } else {
        let rest = names.drop_first();
        lemma_resolve_characterization(rest, raw);
        if resolve_spec(names, raw) is Some {
            let k = choose|k: int| 0 <= k < rest.len() && ci_eq(#[trigger] rest[k], raw);
            assert(names[k + 1] == rest[k]);
            assert(ci_eq(names[k + 1], raw));
        }
        if exists|i: int| 0 <= i < names.len() && ci_eq(#[trigger] names[i], raw) {
            let k = choose|k: int| 0 <= k < names.len() && ci_eq(#[trigger] names[k], raw);
            assert(k != 0);
            assert(rest[k - 1] == names[k]);
            assert(ci_eq(rest[k - 1], raw));
        }
        assert forall|c: Seq<char>| resolve_spec(names, raw) == Some(c) implies exists|i: int|
            #[trigger] is_first_ci_match(names, raw, i) && names[i] == c by {
            let k = choose|k: int| #[trigger] is_first_ci_match(rest, raw, k) && rest[k] == c;
            assert(names[k + 1] == rest[k]);
            assert forall|j: int| 0 <= j < k + 1 implies !ci_eq(#[trigger] names[j], raw) by {
                if j > 0 {
                    assert(rest[j - 1] == names[j]);
                }
            }
            assert(is_first_ci_match(names, raw, k + 1) && names[k + 1] == c);
        }
    }
}

/// Resolves `raw` against the stored names `names`, returning the canonical
/// stored spelling of the first case-insensitive match.
pub fn resolve_name(names: &Vec<String>, raw: &str) -> (r: Option<String>)
    ensures
        r.deep_view() == resolve_spec(names.deep_view(), raw@),
{
    let raw_lower = lowercase(raw);
    let ghost dv = names.deep_view();
    proof {
        assert(dv.skip(0) =~= dv);
    }
    let mut i: usize = 0;
    while i < names.len()
        invariant
            i <= names.len(),
            dv == names.deep_view(),
            raw_lower@ == lower_of(raw@),
            resolve_spec(dv, raw@) == resolve_spec(dv.skip(i as int), raw@),
        decreases names.len() - i,
    {
        let candidate_lower = lowercase(names[i].as_str());
        proof {
            assert(dv.skip(i as int)[0] == dv[i as int]);
        }
        if candidate_lower.eq(&raw_lower) {
            proof {
                assert(ci_eq(dv[i as int], raw@));
                assert(resolve_spec(dv.skip(i as int), raw@) == Some(dv[i as int]));
            }
            let found = names[i].clone();
            return Some(found);
        }
        proof {
            assert(!ci_eq(dv[i as int], raw@));
            assert(dv.skip(i as int).drop_first() =~= dv.skip(i + 1 as int));
        }
        i = i + 1;
    }
    proof {
        assert(dv.skip(names@.len() as int).len() == 0);
    }
    None
}

/// The order-preserving partition of the submitted spellings `raws` into
/// resolved canonical names and spellings with no match.
pub open spec fn partition_spec(all: Seq<Seq<char>>, raws: Seq<Seq<char>>) -> (Seq<Seq<char>>, Seq<
    Seq<char>,
>)
    decreases raws.len(),
{
    if raws.len() == 0 {
        (Seq::empty(), Seq::empty())
    } else {
        let rest = partition_spec(all, raws.drop_last());
        match resolve_spec(all, raws.last()) {
            Some(c) => (rest.0.push(c), rest.1),
            None => (rest.0, rest.1.push(raws.last())),
        }
    }
}

/// The partition is exhaustive and order-preserving: the not-found side is
/// exactly the unmatched spellings in submission order, the found side is
/// exactly the matched spellings in submission order, each replaced by its
/// canonical stored name, and together they account for every submission.
pub proof fn lemma_partition_exhaustive(all: Seq<Seq<char>>, raws: Seq<Seq<char>>)
    ensures
        partition_spec(all, raws).0.len() + partition_spec(all, raws).1.len() == raws.len(),
        partition_spec(all, raws).1 == raws.filter(|r: Seq<char>| !has_ci_match(all, r)),
        partition_spec(all, raws).0 == raws.filter(|r: Seq<char>| has_ci_match(all, r)).map_values(
            |r: Seq<char>| resolve_spec(all, r).unwrap(),
        ),
    decreases raws.len(),
{
    reveal(Seq::filter);
    let nf_pred = |r: Seq<char>| !has_ci_match(all, r);
    let f_pred = |r: Seq<char>| has_ci_match(all, r);
    let canon = |r: Seq<char>| resolve_spec(all, r).unwrap();
    if raws.len() == 0 {
        assert(raws.filter(nf_pred) =~= Seq::<Seq<char>>::empty());
        assert(raws.filter(f_pred) =~= Seq::<Seq<char>>::empty());
        assert(raws.filter(f_pred).map_values(canon) =~= Seq::<Seq<char>>::empty());
    } else {
        let prefix = raws.drop_last();
        lemma_partition_exhaustive(all, prefix);
        if resolve_spec(all, raws.last()) is Some {
            assert(partition_spec(all, raws).0 =~= prefix.filter(f_pred).map_values(canon).push(
                canon(raws.last()),
            ));
            assert(raws.filter(f_pred) =~= prefix.filter(f_pred).push(raws.last()));
            assert(raws.filter(f_pred).map_values(canon) =~= prefix.filter(f_pred).map_values(
                canon,
            ).push(canon(raws.last())));
            assert(raws.filter(nf_pred) =~= prefix.filter(nf_pred));
        } else {
            assert(raws.filter(nf_pred) =~= prefix.filter(nf_pred).push(raws.last()));
            assert(raws.filter(f_pred) =~= prefix.filter(f_pred));
            assert(raws.filter(f_pred).map_values(canon) =~= prefix.filter(f_pred).map_values(
                canon,
            ));
        }
    }
}

/// Every spelling on the not-found side is one of the submissions.
pub proof fn lemma_partition_not_found_submitted(all: Seq<Seq<char>>, raws: Seq<Seq<char>>)
    ensures
        forall|i: int|
            0 <= i < partition_spec(all, raws).1.len() ==> raws.contains(
                #[trigger] partition_spec(all, raws).1[i],
            ),
    decreases raws.len(),
{
    if raws.len() > 0 {
        let prefix = raws.drop_last();
        let rest = partition_spec(all, prefix);
        lemma_partition_not_found_submitted(all, prefix);
        assert forall|i: int| 0 <= i < partition_spec(all, raws).1.len() implies raws.contains(
            #[trigger] partition_spec(all, raws).1[i],
        ) by {
            if i < rest.1.len() {
                assert(partition_spec(all, raws).1[i] == rest.1[i]);
                assert(prefix.contains(rest.1[i]));
                let j = choose|j: int| 0 <= j < prefix.len() && prefix[j] == rest.1[i];
                assert(raws[j] == prefix[j]);
            } else {
                assert(partition_spec(all, raws).1[i] == raws.last());
                assert(raws[raws.len() - 1] == raws.last());
            }
        }
    }
}

/// When every submitted spelling resolved, the found side pairs each
/// submission positionally with its canonical stored name.
pub proof fn lemma_partition_all_found(all: Seq<Seq<char>>, raws: Seq<Seq<char>>)
    requires
        partition_spec(all, raws).1.len() == 0,
    ensures
        partition_spec(all, raws).0.len() == raws.len(),
        forall|i: int|
            0 <= i < raws.len() ==> has_ci_match(all, #[trigger] raws[i]) && partition_spec(
                all,
                raws,
            ).0[i] == resolve_spec(all, raws[i]).unwrap(),
    decreases raws.len(),
{
    if raws.len() > 0 {
        let prefix = raws.drop_last();
        let rest = partition_spec(all, prefix);
        assert(resolve_spec(all, raws.last()) is Some);
        lemma_partition_all_found(all, prefix);
        assert forall|i: int|
            0 <= i < raws.len() implies has_ci_match(all, #[trigger] raws[i]) && partition_spec(
            all,
            raws,
        ).0[i] == resolve_spec(all, raws[i]).unwrap() by {
            if i < prefix.len() {
                assert(prefix[i] == raws[i]);
                assert(partition_spec(all, raws).0[i] == rest.0[i]);
            } else {
                assert(raws[i] == raws.last());
            }
        }
    }
}

/// Partitions the submitted column spellings `raws` against the stored column
/// names `all`, preserving submission order within each side.
pub fn partition_columns(all: &Vec<String>, raws: &Vec<String>) -> (r: (Vec<ColumnName>, Vec<
    String,
>))
    ensures
        (names_view(r.0@), r.1.deep_view()) == partition_spec(all.deep_view(), raws.deep_view()),
{
    let ghost all_dv = all.deep_view();
    let ghost raws_dv = raws.deep_view();
    let mut found: Vec<ColumnName> = Vec::new();
    let mut not_found: Vec<String> = Vec::new();
    let mut k: usize = 0;
    while k < raws.len()
        invariant
            k <= raws.len(),
            all_dv == all.deep_view(),
            raws_dv == raws.deep_view(),
            found.len() + not_found.len() == k,
            (names_view(found@), not_found.deep_view()) == partition_spec(
                all_dv,
                raws_dv.take(k as int),
            ),
        decreases raws.len() - k,
    {
        proof {
            assert(raws_dv.take(k + 1 as int).drop_last() =~= raws_dv.take(k as int));
            assert(raws_dv.take(k + 1 as int).last() == raws_dv[k as int]);
        }
        match resolve_name(all, raws[k].as_str()) {
            Some(c) => {
                found.push(ColumnName::from_catalog(c));
                proof {
                    let ghost target = partition_spec(all_dv, raws_dv.take(k + 1 as int)).0;
                    assert forall|j: int| 0 <= j < found@.len() implies names_view(found@)[j]
                        == target[j] by {
                        assert(names_view(found@)[j] == found@[j]@);
                        if j < found@.len() - 1 {
                            assert(names_view(found@)[j] == partition_spec(
                                all_dv,
                                raws_dv.take(k as int),
                            ).0[j]);
                        }
                    }
                    assert(names_view(found@) =~= target);
                }
            },
            None => {
                not_found.push(raws[k].clone());
                proof {
                    assert(not_found.deep_view() =~= partition_spec(
                        all_dv,
                        raws_dv.take(k + 1 as int),
                    ).1);
                }
            },
        }
        k = k + 1;
    }
    proof {
        assert(raws_dv.take(raws@.len() as int) =~= raws_dv);
    }
    (found, not_found)
}

} // verus!
