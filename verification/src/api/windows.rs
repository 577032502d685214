//! Windows versions as API feature levels.
//!
//! A target names the newest Windows version whose API it may use. Every
//! version up to that one is then an enabled feature, separately for the NT
//! line and for the line that began with Windows 95.

use vstd::prelude::*;

verus! {

/// The versions of the NT line, oldest first.
pub const WINDOWS_VERSIONS: [&'static str; 26] = [
    "3.10.511",
    "3.10.528",
    "3.50.807",
    "3.51.1057",
    "4.0.1381",
    "5.0.2195",
    "5.1.2600",
    "5.2.3790",
    "6.0.6000",
    "6.0.6001",
    "6.0.6002",
    "6.1.7600",
    "6.1.7601",
    "6.1.8400",
    "6.2.9200",
    "6.3.9600",
    "10.0.10240",
    "10.0.10586",
    "10.0.14393",
    "10.0.15063",
    "10.0.16299",
    "10.0.17134",
    "10.0.17763",
    "10.0.18362",
    "10.0.18363",
    "10.0.19041",
];

/// The versions of the line from Windows 95 to Windows ME, oldest first.
pub const ANSI_WINDOWS_VERSIONS: [&'static str; 7] = [
    "4.00.950",
    "4.00.950 A",
    "4.00.950 B",
    "4.00.950 C",
    "4.10.1998",
    "4.10.2222",
    "4.90.3000",
];

/// The texts of a list of version names.
pub open spec fn texts(list: Seq<&'static str>) -> Seq<Seq<char>> {
    list.map_values(|name: &'static str| name@)
}

/// The texts of a list of requested names.
pub open spec fn requests(list: Seq<String>) -> Seq<Seq<char>> {
    list.map_values(|name: String| name@)
}

/// The first place of `api` in `versions`, if it occurs.
pub open spec fn first_index(versions: Seq<Seq<char>>, api: Seq<char>) -> Option<int>
    decreases versions.len(),
{
    if versions.len() == 0 {
        None
    } else {
        match first_index(versions.drop_last(), api) {
            Some(i) => Some(i),
            None => if versions.last() == api {
                Some(versions.len() - 1)
            } else {
                None
            },
        }
    }
}

/// The highest place in `versions` that any of `requested` takes, if any of
/// them occurs there.
pub open spec fn highest_index(requested: Seq<Seq<char>>, versions: Seq<Seq<char>>) -> Option<int>
    decreases requested.len(),
{
    if requested.len() == 0 {
        None
    } else {
        let before = highest_index(requested.drop_last(), versions);
        match first_index(versions, requested.last()) {
            None => before,
            Some(i) => match before {
                Some(highest) if highest >= i => before,
                _ => Some(i),
            },
        }
    }
}

/// The versions up to and including the one at `index`; none without an index.
pub open spec fn up_to(versions: Seq<Seq<char>>, index: Option<int>) -> Seq<Seq<char>> {
    match index {
        Some(i) => versions.take(i + 1),
        None => Seq::empty(),
    }
}

/// The features that a list of requested versions enables: of each line the
/// versions up to the newest one requested, the NT line first.
pub open spec fn enabled(requested: Seq<Seq<char>>) -> Seq<Seq<char>> {
    up_to(texts(WINDOWS_VERSIONS@), highest_index(requested, texts(WINDOWS_VERSIONS@))) + up_to(
        texts(ANSI_WINDOWS_VERSIONS@),
        highest_index(requested, texts(ANSI_WINDOWS_VERSIONS@)),
    )
}

/// `first_index` finds an occurrence that no earlier one precedes, and finds
/// none only where there is none.
pub proof fn lemma_first_index(versions: Seq<Seq<char>>, api: Seq<char>)
    ensures
        match first_index(versions, api) {
            Some(i) => 0 <= i < versions.len() && versions[i] == api && forall|j: int|
                0 <= j < i ==> #[trigger] versions[j] != api,
            None => forall|j: int| 0 <= j < versions.len() ==> #[trigger] versions[j] != api,
        },
    decreases versions.len(),
{
    if versions.len() > 0 {
        let front = versions.drop_last();
        lemma_first_index(front, api);
        assert forall|j: int| 0 <= j < front.len() implies front[j] == versions[j] by {}
    }
}

/// `highest_index` is the place of one of the requested names, no requested
/// name has its place above it, and it is absent only where no requested name
/// occurs at all.
pub proof fn lemma_highest_index(requested: Seq<Seq<char>>, versions: Seq<Seq<char>>)
    ensures
        match highest_index(requested, versions) {
            Some(i) => {
                &&& exists|k: int|
                    0 <= k < requested.len() && first_index(versions, #[trigger] requested[k])
                        == Some(i)
                &&& forall|k: int|
                    0 <= k < requested.len() ==> (first_index(versions, #[trigger] requested[k])
                        matches Some(j) ==> j <= i)
            },
            None => forall|k: int|
                0 <= k < requested.len() ==> first_index(versions, #[trigger] requested[k])
                    is None,
        },
    decreases requested.len(),
{
    if requested.len() > 0 {
        let front = requested.drop_last();
        lemma_highest_index(front, versions);
        assert forall|k: int| 0 <= k < requested.len() - 1 implies requested[k] == front[k] by {}
        match highest_index(requested, versions) {
            Some(i) => {
                if first_index(versions, requested.last()) == Some(i) {
                    assert(requested[requested.len() - 1] == requested.last());
                } else {
                    let k = choose|k: int|
                        0 <= k < front.len() && first_index(versions, #[trigger] front[k]) == Some(
                            i,
                        );
                    assert(requested[k] == front[k]);
                }
            },
            None => {},
        }
    }
}

/// Whether two names are the same text.
fn same_name(version: &str, api: &String) -> (same: bool)
    ensures
        same == (version@ == api@),
{
    version.to_owned() == *api
}

/// Finds the first place of `api` in `version_list`.
fn find_index(version_list: &[&'static str], api: &String) -> (index: Option<usize>)
    ensures
        index matches Some(i) ==> first_index(texts(version_list@), api@) == Some(i as int),
        index is None ==> first_index(texts(version_list@), api@) is None,
{
    let ghost versions = texts(version_list@);
    let mut i: usize = 0;
    while i < version_list.len()
        invariant
            i <= version_list.len(),
            versions == texts(version_list@),
            first_index(versions.take(i as int), api@) is None,
        decreases version_list.len() - i,
    {
        proof {
            assert(versions.take(i + 1).drop_last() == versions.take(i as int));
            assert(versions.take(i + 1).last() == version_list@[i as int]@);
        }
        if same_name(version_list[i], api) {
            proof {
                lemma_first_index_prefix(versions, (i + 1) as int, api@);
            }
            return Some(i);
        }
        i = i + 1;
    }
    proof {
        assert(versions.take(i as int) == versions);
    }
    None
}

/// An occurrence found in a prefix is the first one of the whole list.
proof fn lemma_first_index_prefix(versions: Seq<Seq<char>>, end: int, api: Seq<char>)
    requires
        0 <= end <= versions.len(),
        first_index(versions.take(end), api) is Some,
    ensures
        first_index(versions, api) == first_index(versions.take(end), api),
    decreases versions.len() - end,
{
    if end < versions.len() {
        assert(versions.take(end + 1).drop_last() == versions.take(end));
        lemma_first_index_prefix(versions, end + 1, api);
    } else {
        assert(versions.take(end) == versions);
    }
}

/// Finds the highest place in `version_list` that any of `requested_apis` takes.
fn find_highest_index(requested_apis: &[String], version_list: &[&'static str]) -> (index: Option<
    usize,
>)
    ensures
        index matches Some(i) ==> highest_index(requests(requested_apis@), texts(version_list@))
            == Some(i as int) && i < version_list.len(),
        index is None ==> highest_index(requests(requested_apis@), texts(version_list@)) is None,
{
    let ghost requested = requests(requested_apis@);
    let ghost versions = texts(version_list@);
    let mut highest: Option<usize> = None;
    let mut k: usize = 0;
    while k < requested_apis.len()
        invariant
            k <= requested_apis.len(),
            requested == requests(requested_apis@),
            versions == texts(version_list@),
            highest matches Some(i) ==> highest_index(requested.take(k as int), versions) == Some(
                i as int,
            ) && i < version_list.len(),
            highest is None ==> highest_index(requested.take(k as int), versions) is None,
        decreases requested_apis.len() - k,
    {
        proof {
            assert(requested.take(k + 1).drop_last() == requested.take(k as int));
            assert(requested.take(k + 1).last() == requested_apis@[k as int]@);
            lemma_first_index(versions, requested_apis@[k as int]@);
        }
        match find_index(version_list, &requested_apis[k]) {
            None => {},
            Some(i) => {
                highest = match highest {
                    Some(old) if old >= i => Some(old),
                    _ => Some(i),
                };
            },
        }
        k = k + 1;
    }
    proof {
        assert(requested.take(k as int) == requested);
    }
    highest
}

/// Appends to `features` the versions of `version_list` up to and including
/// the one at `index`.
fn extend_up_to(
    features: &mut Vec<&'static str>,
    version_list: &[&'static str],
    index: Option<usize>,
)
    requires
        index matches Some(i) ==> i < version_list.len(),
    ensures
        texts(final(features)@) == texts(old(features)@) + up_to(
            texts(version_list@),
            match index {
                Some(i) => Some(i as int),
                None => None,
            },
        ),
{
    match index {
        None => {
            proof {
                assert(texts(features@) + Seq::<Seq<char>>::empty() == texts(features@));
            }
        },
        Some(last) => {
            let ghost before = texts(features@);
            let mut k: usize = 0;
            while k <= last
                invariant
                    k <= last + 1,
                    last < version_list.len(),
                    texts(features@) == before + texts(version_list@).take(k as int),
                decreases last + 1 - k,
            {
                let ghost shorter = features@;
                features.push(version_list[k]);
                proof {
                    let name = version_list@[k as int];
                    assert(texts(features@) =~= texts(shorter).push(name@));
                    assert(texts(version_list@).take(k + 1) =~= texts(version_list@).take(
                        k as int,
                    ).push(name@));
                    assert(texts(features@) =~= before + texts(version_list@).take(k + 1));
                }
                k = k + 1;
            }
        },
    }
}

/// The API features that a target with the requested API versions enables.
///
/// A requested name that is no known version enables nothing.
pub fn get_enabled_target_api_features(requested_apis: &[String]) -> (enabled_features: Vec<
    &'static str,
>)
    ensures
        texts(enabled_features@) == enabled(requests(requested_apis@)),
{
    let highest_index_nt = find_highest_index(requested_apis, &WINDOWS_VERSIONS);
    let highest_index_ansi = find_highest_index(requested_apis, &ANSI_WINDOWS_VERSIONS);
    let mut enabled_features: Vec<&'static str> = Vec::new();
    proof {
        assert(texts(enabled_features@) == Seq::<Seq<char>>::empty());
    }
    extend_up_to(&mut enabled_features, &WINDOWS_VERSIONS, highest_index_nt);
    extend_up_to(&mut enabled_features, &ANSI_WINDOWS_VERSIONS, highest_index_ansi);
    proof {
        assert(Seq::<Seq<char>>::empty() + up_to(
            texts(WINDOWS_VERSIONS@),
            highest_index(requests(requested_apis@), texts(WINDOWS_VERSIONS@)),
        ) == up_to(
            texts(WINDOWS_VERSIONS@),
            highest_index(requests(requested_apis@), texts(WINDOWS_VERSIONS@)),
        ));
    }
    enabled_features
}

} // verus!
