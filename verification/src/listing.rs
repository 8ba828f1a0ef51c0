//! The list of models on offer: one entry for each model, with the
//! inference profiles that route to it, ordered by provider and name.

use vstd::multiset::Multiset;
use vstd::prelude::*;
use vstd::seq_lib::{to_multiset_build, to_multiset_insert};
use vstd::string::StringExecFns;

verus! {

/// A model as the service lists it.
#[derive(Debug, Clone, PartialEq, Eq)]
pub struct ModelSummary {
    pub model_arn: String,
    pub model_id: String,
    pub model_name: String,
    pub provider_name: String,
    pub input_modalities: Vec<String>,
    pub output_modalities: Vec<String>,
}

/// An inference profile as the service lists it, with the models that it
/// routes to.
#[derive(Debug, Clone, PartialEq, Eq)]
pub struct InferenceProfile {
    pub inference_profile_id: String,
    pub model_arns: Vec<String>,
}

#[derive(Debug, Clone, PartialEq, Eq)]
pub struct ModelDetails {
    pub provider: String,
    pub name: String,
    pub model_id: String,
    pub input: Vec<String>,
    pub output: Vec<String>,
    pub inference_profiles: Vec<String>,
}

/// A model's details under the model's address.
#[derive(Debug, Clone, PartialEq, Eq)]
pub struct CatalogueEntry {
    pub arn: String,
    pub details: ModelDetails,
}

/// Whether `left` comes no later than `right` where texts are ordered
/// character by character, a prefix before what it is a prefix of.
pub open spec fn text_le(left: Seq<char>, right: Seq<char>) -> bool
    decreases left.len(),
{
    if left.len() == 0 {
        true
    } else if right.len() == 0 {
        false
    } else if left[0] != right[0] {
        (left[0] as int) < (right[0] as int)
    } else {
        text_le(left.skip(1), right.skip(1))
    }
}

/// Whether `left` comes no later than `right`.
fn text_precedes(left: &str, right: &str) -> (le: bool)
    ensures
        le == text_le(left@, right@),
{
    let n = left.unicode_len();
    let m = right.unicode_len();
    let mut i: usize = 0;
    assert(left@.skip(0) =~= left@);
    assert(right@.skip(0) =~= right@);
    while i < n && i < m
        invariant
            i <= n,
            i <= m,
            n == left@.len(),
            m == right@.len(),
            text_le(left@, right@) == text_le(left@.skip(i as int), right@.skip(i as int)),
        decreases n - i,
    {
        let a = left.get_char(i);
        let b = right.get_char(i);
        assert(left@.skip(i as int)[0] == a);
        assert(right@.skip(i as int)[0] == b);
        if a != b {
            return a < b;
        }
        assert(left@.skip(i as int).skip(1) =~= left@.skip(i + 1));
        assert(right@.skip(i as int).skip(1) =~= right@.skip(i + 1));
        i += 1;
    }
    i == n
}

/// Of two texts one comes no later than the other.
pub proof fn lemma_text_le_total(left: Seq<char>, right: Seq<char>)
    ensures
        text_le(left, right) || text_le(right, left),
    decreases left.len(),
{
    if left.len() > 0 && right.len() > 0 {
        if left[0] == right[0] {
            lemma_text_le_total(left.skip(1), right.skip(1));
        }
    }
}

/// The order of texts is transitive.
pub proof fn lemma_text_le_transitive(a: Seq<char>, b: Seq<char>, c: Seq<char>)
    requires
        text_le(a, b),
        text_le(b, c),
    ensures
        text_le(a, c),
    decreases a.len(),
{
    if a.len() > 0 && b.len() > 0 && c.len() > 0 && a[0] == b[0] && b[0] == c[0] {
        lemma_text_le_transitive(a.skip(1), b.skip(1), c.skip(1));
    }
}

/// `id`, once for each place at which `arns` holds `arn`.
pub open spec fn mentions(arns: Seq<String>, arn: Seq<char>, id: Seq<char>) -> Seq<Seq<char>>
    decreases arns.len(),
{
    if arns.len() == 0 {
        Seq::empty()
    } else if arns.last()@ == arn {
        mentions(arns.drop_last(), arn, id).push(id)
    } else {
        mentions(arns.drop_last(), arn, id)
    }
}

/// The ids of the profiles that route to `arn`, in the order of the
/// profiles, each as often as the profile names the model.
pub open spec fn profile_ids(profiles: Seq<InferenceProfile>, arn: Seq<char>) -> Seq<Seq<char>>
    decreases profiles.len(),
{
    if profiles.len() == 0 {
        Seq::empty()
    } else {
        profile_ids(profiles.drop_last(), arn) + mentions(
            profiles.last().model_arns@,
            arn,
            profiles.last().inference_profile_id@,
        )
    }
}

/// The texts of `strings`, one for one.
pub open spec fn texts(strings: Seq<String>) -> Seq<Seq<char>> {
    Seq::new(strings.len(), |i: int| strings[i]@)
}

/// Whether `details` are those of `model` among `profiles`.
pub open spec fn details_of(
    details: &ModelDetails,
    model: &ModelSummary,
    profiles: Seq<InferenceProfile>,
) -> bool {
    &&& details.provider@ == model.provider_name@
    &&& details.name@ == model.model_name@
    &&& details.model_id@ == model.model_id@
    &&& texts(details.input@) == texts(model.input_modalities@)
    &&& texts(details.output@) == texts(model.output_modalities@)
    &&& texts(details.inference_profiles@) == profile_ids(profiles, model.model_arn@)
}

/// Whether no model after place `i` has the address of the one at `i`.
pub open spec fn is_last_of_its_arn(models: Seq<ModelSummary>, i: int) -> bool {
    forall|j: int| i < j < models.len() ==> (#[trigger] models[j]).model_arn@ != models[i].model_arn@
}

/// Whether `entry` is taken from the last model of its address, at place
/// `from` or after.
pub open spec fn comes_from(
    entry: &CatalogueEntry,
    models: Seq<ModelSummary>,
    profiles: Seq<InferenceProfile>,
    from: int,
) -> bool {
    exists|j: int|
        {
            &&& from <= j < models.len()
            &&& is_last_of_its_arn(models, j)
            &&& entry.arn@ == models[j].model_arn@
            &&& #[trigger] details_of(&entry.details, &models[j], profiles)
        }
}

/// Whether some entry stands under this address.
pub open spec fn has_entry(entries: Seq<CatalogueEntry>, arn: Seq<char>) -> bool {
    exists|k: int| 0 <= k < entries.len() && (#[trigger] entries[k]).arn@ == arn
}

/// Whether `entries` are the catalogue of `models` from place `from` on:
/// one entry for each address, taken from the last model of that address.
pub open spec fn is_catalogue_of(
    entries: Seq<CatalogueEntry>,
    models: Seq<ModelSummary>,
    profiles: Seq<InferenceProfile>,
    from: int,
) -> bool {
    &&& forall|k: int, l: int|
        #![trigger entries[k], entries[l]]
        0 <= k < l < entries.len() ==> entries[k].arn@ != entries[l].arn@
    &&& forall|j: int|
        from <= j < models.len() ==> has_entry(entries, (#[trigger] models[j]).model_arn@)
    &&& forall|k: int|
        0 <= k < entries.len() ==> comes_from(#[trigger] &entries[k], models, profiles, from)
}

/// The details of `entries`, one for one.
pub open spec fn details_in(entries: Seq<CatalogueEntry>) -> Seq<ModelDetails> {
    Seq::new(entries.len(), |i: int| entries[i].details)
}

impl ModelDetails {
    /// The text by which the list is ordered: provider, then name.
    pub open spec fn sort_key(&self) -> Seq<char> {
        self.provider@ + self.name@
    }

    /// The text by which the list is ordered: provider, then name.
    pub fn key(&self) -> (key: String)
        ensures
            key@ == self.sort_key(),
    {
        self.provider.clone().concat(self.name.as_str())
    }
}

/// The texts of `parts` in a row, with `separator` between neighbours.
pub open spec fn joined(parts: Seq<String>, separator: Seq<char>) -> Seq<char>
    decreases parts.len(),
{
    if parts.len() == 0 {
        Seq::empty()
    } else if parts.len() == 1 {
        parts[0]@
    } else {
        joined(parts.drop_last(), separator) + separator + parts.last()@
    }
}

/// Joins `parts` with `separator` between neighbours.
pub fn join(parts: &Vec<String>, separator: &str) -> (text: String)
    ensures
        text@ == joined(parts@, separator@),
{
    let mut text = String::new();
    let mut i: usize = 0;
    while i < parts.len()
        invariant
            i <= parts@.len(),
            text@ == joined(parts@.take(i as int), separator@),
        decreases parts@.len() - i,
    {
        assert(parts@.take(i + 1).drop_last() =~= parts@.take(i as int));
        assert(parts@.take(i + 1).last() == parts@[i as int]);
        if i > 0 {
            text.append(separator);
        } else {
            assert(parts@.take(1)[0] == parts@[0]);
        }
        text.append(parts[i].as_str());
        i += 1;
        assert(text@ =~= joined(parts@.take(i as int), separator@));
    }
    assert(parts@.take(i as int) =~= parts@);
    text
}

impl ModelDetails {
    /// The line that shows the model in a list.
    pub open spec fn line(&self) -> Seq<char> {
        self.provider@ + " | "@ + self.name@ + " | model-id: "@ + self.model_id@
            + " | profile-ids: "@ + joined(self.inference_profiles@, ", "@) + " | inputs: "@
            + joined(self.input@, ", "@) + " | outputs: "@ + joined(self.output@, ", "@)
    }

    /// The line that shows the model in a list: provider, name, model id,
    /// then the profile ids and the modalities in and out, each list with
    /// commas.
    pub fn to_string(&self) -> (text: String)
        ensures
            text@ == self.line(),
    {
        let mut text = self.provider.clone();
        text.append(" | ");
        text.append(self.name.as_str());
        text.append(" | model-id: ");
        text.append(self.model_id.as_str());
        text.append(" | profile-ids: ");
        text.append(join(&self.inference_profiles, ", ").as_str());
        text.append(" | inputs: ");
        text.append(join(&self.input, ", ").as_str());
        text.append(" | outputs: ");
        text.append(join(&self.output, ", ").as_str());
        text
    }
}

/// Whether `list` is in the order of its keys.
pub open spec fn is_ordered(list: Seq<ModelDetails>) -> bool {
    forall|i: int, j: int|
        0 <= i < j < list.len() ==> text_le(
            (#[trigger] list[i]).sort_key(),
            (#[trigger] list[j]).sort_key(),
        )
}

/// A model whose address stands in the catalogue already adds nothing.
proof fn lemma_entry_kept(
    entries: Seq<CatalogueEntry>,
    models: Seq<ModelSummary>,
    profiles: Seq<InferenceProfile>,
    i: int,
)
    requires
        0 <= i < models.len(),
        is_catalogue_of(entries, models, profiles, i + 1),
        has_entry(entries, models[i].model_arn@),
    ensures
        is_catalogue_of(entries, models, profiles, i),
{
    assert forall|k: int| 0 <= k < entries.len() implies comes_from(
        #[trigger] &entries[k],
        models,
        profiles,
        i,
    ) by {
        assert(comes_from(&entries[k], models, profiles, i + 1));
        let j = choose|j: int|
            {
                &&& i + 1 <= j < models.len()
                &&& is_last_of_its_arn(models, j)
                &&& entries[k].arn@ == models[j].model_arn@
                &&& #[trigger] details_of(&entries[k].details, &models[j], profiles)
            };
        assert(details_of(&entries[k].details, &models[j], profiles));
    }
}

/// A model whose address is new to the catalogue is the last of its
/// address, and its entry joins the others.
proof fn lemma_entry_added(
    entries: Seq<CatalogueEntry>,
    models: Seq<ModelSummary>,
    profiles: Seq<InferenceProfile>,
    i: int,
    entry: CatalogueEntry,
)
    requires
        0 <= i < models.len(),
        is_catalogue_of(entries, models, profiles, i + 1),
        !has_entry(entries, models[i].model_arn@),
        entry.arn@ == models[i].model_arn@,
        details_of(&entry.details, &models[i], profiles),
    ensures
        is_catalogue_of(entries.push(entry), models, profiles, i),
{
    let extended = entries.push(entry);
    let n = entries.len() as int;
    assert(is_last_of_its_arn(models, i)) by {
        assert forall|j: int| i < j < models.len() implies (#[trigger] models[j]).model_arn@
            != models[i].model_arn@ by {
            assert(has_entry(entries, models[j].model_arn@));
        }
    }
    assert forall|k: int, l: int|
        #![trigger extended[k], extended[l]]
        0 <= k < l < extended.len() implies extended[k].arn@ != extended[l].arn@ by {
        assert(extended[k] == entries[k]);
        if l < n {
            assert(extended[l] == entries[l]);
        }
    }
    assert forall|j: int| i <= j < models.len() implies has_entry(
        extended,
        (#[trigger] models[j]).model_arn@,
    ) by {
        if j == i {
            assert(extended[n].arn@ == models[j].model_arn@);
        } else {
            assert(has_entry(entries, models[j].model_arn@));
            let k = choose|k: int|
                0 <= k < entries.len() && (#[trigger] entries[k]).arn@ == models[j].model_arn@;
            assert(extended[k].arn@ == models[j].model_arn@);
        }
    }
    assert forall|k: int| 0 <= k < extended.len() implies comes_from(
        #[trigger] &extended[k],
        models,
        profiles,
        i,
    ) by {
        if k == n {
            assert(details_of(&extended[k].details, &models[i], profiles));
        } else {
            assert(extended[k] == entries[k]);
            assert(comes_from(&entries[k], models, profiles, i + 1));
            let j = choose|j: int|
                {
                    &&& i + 1 <= j < models.len()
                    &&& is_last_of_its_arn(models, j)
                    &&& entries[k].arn@ == models[j].model_arn@
                    &&& #[trigger] details_of(&entries[k].details, &models[j], profiles)
                };
            assert(details_of(&extended[k].details, &models[j], profiles));
        }
    }
}

/// Where among `entries` the one under `arn` stands, if any does.
fn position(entries: &Vec<CatalogueEntry>, arn: &String) -> (found: Option<usize>)
    ensures
        match found {
            Some(k) => k < entries@.len() && entries@[k as int].arn@ == arn@,
            None => !has_entry(entries@, arn@),
        },
{
    let mut k: usize = 0;
    while k < entries.len()
        invariant
            k <= entries@.len(),
            forall|l: int| 0 <= l < k ==> (#[trigger] entries@[l]).arn@ != arn@,
        decreases entries@.len() - k,
    {
        if entries[k].arn == *arn {
            return Some(k);
        }
        k += 1;
    }
    None
}

/// A copy of `strings`, text for text.
fn copy_of(strings: &Vec<String>) -> (copy: Vec<String>)
    ensures
        texts(copy@) == texts(strings@),
{
    let mut copy: Vec<String> = Vec::new();
    let mut i: usize = 0;
    while i < strings.len()
        invariant
            i <= strings@.len(),
            copy@.len() == i,
            forall|j: int| 0 <= j < i ==> (#[trigger] copy@[j])@ == strings@[j]@,
        decreases strings@.len() - i,
    {
        copy.push(strings[i].clone());
        i += 1;
    }
    assert(texts(copy@) =~= texts(strings@));
    copy
}

/// The ids of the profiles that route to `arn`.
fn routes_to(profiles: &Vec<InferenceProfile>, arn: &String) -> (ids: Vec<String>)
    ensures
        texts(ids@) == profile_ids(profiles@, arn@),
{
    let mut ids: Vec<String> = Vec::new();
    let mut p: usize = 0;
    assert(texts(ids@) =~= profile_ids(profiles@.take(0), arn@));
    while p < profiles.len()
        invariant
            p <= profiles@.len(),
            texts(ids@) == profile_ids(profiles@.take(p as int), arn@),
        decreases profiles@.len() - p,
    {
        let profile = &profiles[p];
        let ghost done = texts(ids@);
        let mut m: usize = 0;
        assert(texts(ids@) =~= done + mentions(
            profile.model_arns@.take(0),
            arn@,
            profile.inference_profile_id@,
        ));
        while m < profile.model_arns.len()
            invariant
                m <= profile.model_arns@.len(),
                texts(ids@) == done + mentions(
                    profile.model_arns@.take(m as int),
                    arn@,
                    profile.inference_profile_id@,
                ),
            decreases profile.model_arns@.len() - m,
        {
            let ghost seen = mentions(
                profile.model_arns@.take(m as int),
                arn@,
                profile.inference_profile_id@,
            );
            let ghost held = ids@;
            assert(profile.model_arns@.take(m + 1).drop_last() =~= profile.model_arns@.take(
                m as int,
            ));
            assert(profile.model_arns@.take(m + 1).last() == profile.model_arns@[m as int]);
            if profile.model_arns[m] == *arn {
                ids.push(profile.inference_profile_id.clone());
                assert(texts(ids@) =~= texts(held).push(profile.inference_profile_id@));
                assert(texts(ids@) =~= done + seen.push(profile.inference_profile_id@));
            }
            m += 1;
        }
        assert(profile.model_arns@.take(m as int) =~= profile.model_arns@);
        assert(profiles@.take(p + 1).drop_last() =~= profiles@.take(p as int));
        assert(profiles@.take(p + 1).last() == profiles@[p as int]);
        p += 1;
    }
    assert(profiles@.take(p as int) =~= profiles@);
    ids
}

/// Gathers the catalogue: one entry for each address among `models`, each
/// with the profiles that route to it. Where an address occurs more than
/// once, the last model of that address counts.
pub fn catalogue(models: &Vec<ModelSummary>, profiles: &Vec<InferenceProfile>) -> (entries: Vec<
    CatalogueEntry,
>)
    ensures
        is_catalogue_of(entries@, models@, profiles@, 0),
{
    let mut entries: Vec<CatalogueEntry> = Vec::new();
    let mut i: usize = models.len();
    while i > 0
        invariant
            i <= models@.len(),
            is_catalogue_of(entries@, models@, profiles@, i as int),
        decreases i,
    {
        i -= 1;
        let model = &models[i];
        match position(&entries, &model.model_arn) {
            Some(_) => {
                proof {
                    lemma_entry_kept(entries@, models@, profiles@, i as int);
                }
            },
            None => {
                let details = ModelDetails {
                    provider: model.provider_name.clone(),
                    name: model.model_name.clone(),
                    model_id: model.model_id.clone(),
                    input: copy_of(&model.input_modalities),
                    output: copy_of(&model.output_modalities),
                    inference_profiles: routes_to(profiles, &model.model_arn),
                };
                let entry = CatalogueEntry { arn: model.model_arn.clone(), details };
                proof {
                    lemma_entry_added(entries@, models@, profiles@, i as int, entry);
                }
                entries.push(entry);
            },
        }
    }
    entries
}

/// Puts the details of `entries` in the order of their keys. Nothing is
/// added and nothing is lost.
pub fn in_order(entries: Vec<CatalogueEntry>) -> (list: Vec<ModelDetails>)
    ensures
        is_ordered(list@),
        list@.to_multiset() == details_in(entries@).to_multiset(),
{
    let mut rest = entries;
    let mut list: Vec<ModelDetails> = Vec::new();
    proof {
        assert(details_in(rest@) =~= details_in(entries@));
        assert(list@.to_multiset() =~= Multiset::<ModelDetails>::empty()) by {
            broadcast use vstd::seq_lib::group_to_multiset_ensures;
        }
    }
    while rest.len() > 0
        invariant
            is_ordered(list@),
            list@.to_multiset().add(details_in(rest@).to_multiset()) == details_in(
                entries@,
            ).to_multiset(),
        decreases rest@.len(),
    {
        let ghost before = rest@;
        let ghost sorted = list@;
        let entry = rest.pop().unwrap();
        let details = entry.details;
        let key = details.key();
        let mut at: usize = 0;
        while at < list.len() && text_precedes(list[at].key().as_str(), key.as_str())
            invariant
                at <= list@.len(),
                key@ == details.sort_key(),
                forall|k: int| 0 <= k < at ==> text_le((#[trigger] list@[k]).sort_key(), key@),
            decreases list@.len() - at,
        {
            at += 1;
        }
        list.insert(at, details);
        proof {
            assert(details_in(before) =~= details_in(rest@).push(details));
            to_multiset_build(details_in(rest@), details);
            to_multiset_insert(sorted, at as int, details);
            assert(list@.to_multiset().add(details_in(rest@).to_multiset()) =~= sorted.to_multiset().add(
                details_in(before).to_multiset(),
            ));
            assert forall|i: int, j: int| 0 <= i < j < list@.len() implies text_le(
                (#[trigger] list@[i]).sort_key(),
                (#[trigger] list@[j]).sort_key(),
            ) by {
                if j == at {
                    assert(list@[i] == sorted[i]);
                } else if i == at {
                    assert(list@[j] == sorted[j - 1]);
                    lemma_text_le_total(sorted[at as int].sort_key(), key@);
                    if j - 1 > at {
                        lemma_text_le_transitive(
                            key@,
                            sorted[at as int].sort_key(),
                            sorted[j - 1].sort_key(),
                        );
                    }
                } else {
                    let a = if i < at { i } else { i - 1 };
                    let b = if j < at { j } else { j - 1 };
                    assert(list@[i] == sorted[a]);
                    assert(list@[j] == sorted[b]);
                }
            }
        }
    }
    proof {
        assert(details_in(rest@).to_multiset() =~= Multiset::<ModelDetails>::empty()) by {
            broadcast use vstd::seq_lib::group_to_multiset_ensures;
        }
        assert(list@.to_multiset() =~= details_in(entries@).to_multiset());
    }
    list
}

/// Lists the models: the catalogue of `models` and `profiles`, in the
/// order of provider and name.
pub fn list_models(models: &Vec<ModelSummary>, profiles: &Vec<InferenceProfile>) -> (list: Vec<
    ModelDetails,
>)
    ensures
        is_ordered(list@),
        exists|entries: Seq<CatalogueEntry>|
            #[trigger] is_catalogue_of(entries, models@, profiles@, 0) && list@.to_multiset()
                == details_in(entries).to_multiset(),
{
    let entries = catalogue(models, profiles);
    in_order(entries)
}

} // verus!
