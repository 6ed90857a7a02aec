//! What holds of catalogs and of the resolution of requests.

use crate::cloud_provider::utilities::{
    generated_versions, is_resolution, head_component, is_minor_key, is_patch_key, lemma_first_dot,
    lemma_first_dot_is, lookup_key, minor_entries, minor_key, parsed_version, patch_entries,
    patch_key, resolved_version, self_hosted_mongodb_versions, self_hosted_mysql_versions,
    self_hosted_postgres_versions, self_hosted_redis_versions, tail_components,
    unsupported_version_message, VersionsNumberView,
};
use crate::error::{StringError, StringErrorKind, StringErrorView};
use crate::string::{decimal, lemma_decimal_has_no_dot, lemma_decimal_injective};
use vstd::prelude::*;

verus! {

/// Whether `text` holds no `.`.
pub open spec fn has_no_dot(text: Seq<char>) -> bool {
    forall|i: int| 0 <= i < text.len() ==> #[trigger] text[i] != '.'
}

/// A text without a `.` is its own and only component.
pub proof fn lemma_plain_text(text: Seq<char>)
    requires
        has_no_dot(text),
    ensures
        head_component(text) == text,
        tail_components(text) is None,
{
    lemma_first_dot_is(text, text.len() as int);
    assert(text.take(text.len() as int) =~= text);
}

/// Of a text without a `.`, a `.` and any text, the first is the head and
/// the last is what follows it.
pub proof fn lemma_dotted_text(head: Seq<char>, rest: Seq<char>)
    requires
        has_no_dot(head),
    ensures
        head_component(head + seq!['.'] + rest) == head,
        tail_components(head + seq!['.'] + rest) == Some(rest),
{
    let text = head + seq!['.'] + rest;
    assert forall|i: int| 0 <= i < head.len() implies text[i] != '.' by {
        assert(text[i] == head[i]);
    }
    assert(text[head.len() as int] == '.');
    lemma_first_dot_is(text, head.len() as int);
    assert(text.take(head.len() as int) =~= head);
    assert(text.skip(head.len() as int + 1) =~= rest);
}

/// The head of any text holds no `.`.
pub proof fn lemma_head_has_no_dot(text: Seq<char>)
    ensures
        has_no_dot(head_component(text)),
{
    lemma_first_dot(text);
}

/// The keys that a range generates are read back as the numbers they were
/// written from, and each is looked up as itself.
pub proof fn lemma_parsed_keys(major: int, minor: int, update: int)
    ensures
        parsed_version(decimal(major)) == (VersionsNumberView {
            major: decimal(major),
            minor: None,
            patch: None,
        }),
        parsed_version(minor_key(major, minor)) == (VersionsNumberView {
            major: decimal(major),
            minor: Some(decimal(minor)),
            patch: None,
        }),
        parsed_version(patch_key(major, minor, update)) == (VersionsNumberView {
            major: decimal(major),
            minor: Some(decimal(minor)),
            patch: Some(decimal(update)),
        }),
        lookup_key(parsed_version(decimal(major))) == decimal(major),
        lookup_key(parsed_version(minor_key(major, minor))) == minor_key(major, minor),
        lookup_key(parsed_version(patch_key(major, minor, update))) == patch_key(
            major,
            minor,
            update,
        ),
        decimal(major).len() > 0,
        minor_key(major, minor).len() > 0,
        patch_key(major, minor, update).len() > 0,
{
    lemma_decimal_has_no_dot(major);
    lemma_decimal_has_no_dot(minor);
    lemma_decimal_has_no_dot(update);
    lemma_plain_text(decimal(major));
    lemma_plain_text(decimal(minor));
    lemma_plain_text(decimal(update));
    lemma_dotted_text(decimal(major), decimal(minor));
    let after_major = decimal(minor) + seq!['.'] + decimal(update);
    assert(patch_key(major, minor, update) =~= decimal(major) + seq!['.'] + after_major);
    lemma_dotted_text(decimal(major), after_major);
    lemma_dotted_text(decimal(minor), decimal(update));
}

/// Whether `version` is `key` itself or `key` with further components:
/// `key`, then a `.`, then anything.
pub open spec fn extends_key(key: Seq<char>, version: Seq<char>) -> bool {
    version == key || (version.len() > key.len() && version.take(key.len() as int) == key
        && version[key.len() as int] == '.')
}

/// Whether every entry of a catalog maps its key to a version that extends
/// it.
pub open spec fn versions_extend_keys(versions: Map<Seq<char>, Seq<char>>) -> bool {
    forall|key: Seq<char>| #[trigger]
        versions.contains_key(key) ==> extends_key(key, versions[key])
}

/// Whether a version has the components that a request names: the same
/// major, and the same minor and patch as far as the request has them.
pub open spec fn matches_request(requested: Seq<char>, version: Seq<char>) -> bool {
    let asked = parsed_version(requested);
    let got = parsed_version(version);
    &&& got.major == asked.major
    &&& asked.minor is Some ==> got.minor == asked.minor
    &&& asked.patch is Some ==> got.patch == asked.patch
}

/// A version that extends the key of a request has the components that the
/// request names.
pub proof fn lemma_extension_matches_request(requested: Seq<char>, version: Seq<char>)
    requires
        extends_key(lookup_key(parsed_version(requested)), version),
    ensures
        matches_request(requested, version),
{
    let asked = parsed_version(requested);
    let key = lookup_key(asked);
    let further = version.skip(key.len() as int + 1);
    if version != key {
        assert(version =~= key + seq!['.'] + further);
    }
    lemma_head_has_no_dot(requested);
    let major = asked.major;
    match tail_components(requested) {
        None => {
            if version == key {
                lemma_plain_text(major);
            } else {
                lemma_dotted_text(major, further);
            }
        },
        Some(after_major) => {
            lemma_head_has_no_dot(after_major);
            let minor = asked.minor->0;
            match tail_components(after_major) {
                None => {
                    if version == key {
                        lemma_dotted_text(major, minor);
                        lemma_plain_text(minor);
                    } else {
                        assert(version =~= major + seq!['.'] + (minor + seq!['.'] + further));
                        lemma_dotted_text(major, minor + seq!['.'] + further);
                        lemma_dotted_text(minor, further);
                    }
                },
                Some(after_minor) => {
                    lemma_head_has_no_dot(after_minor);
                    let patch = asked.patch->0;
                    if version == key {
                        assert(version =~= major + seq!['.'] + (minor + seq!['.'] + patch));
                        lemma_dotted_text(major, minor + seq!['.'] + patch);
                        lemma_dotted_text(minor, patch);
                        lemma_plain_text(patch);
                    } else {
                        let after = minor + seq!['.'] + (patch + seq!['.'] + further);
                        assert(version =~= major + seq!['.'] + after);
                        lemma_dotted_text(major, after);
                        lemma_dotted_text(minor, patch + seq!['.'] + further);
                        lemma_dotted_text(patch, further);
                    }
                },
            }
        },
    }
}

/// Where every version of a catalog extends its key, a request that
/// resolves gets a version with the components that it names.
pub proof fn lemma_resolved_version_matches_request(
    database_name: Seq<char>,
    versions: Map<Seq<char>, Seq<char>>,
    requested: Seq<char>,
)
    requires
        versions_extend_keys(versions),
        resolved_version(database_name, versions, requested) is Ok,
    ensures
        matches_request(requested, resolved_version(database_name, versions, requested)->Ok_0),
{
    let key = lookup_key(parsed_version(requested));
    assert(versions.contains_key(key));
    lemma_extension_matches_request(requested, versions[key]);
}

/// In a catalog that a range without suffix expands to, every version
/// extends its key.
pub proof fn lemma_generated_versions_extend_keys(
    major: int,
    minor_min: int,
    minor_max: int,
    updates: Option<(int, int)>,
)
    ensures
        versions_extend_keys(
            generated_versions(major, minor_min, minor_max, updates, Seq::empty()),
        ),
{
    let versions = generated_versions(major, minor_min, minor_max, updates, Seq::empty());
    let nothing = Seq::<char>::empty();
    assert forall|key: Seq<char>| #[trigger] versions.contains_key(key) implies extends_key(
        key,
        versions[key],
    ) by {
        let version = versions[key];
        match updates {
            Some((update_min, update_max)) => {
                let tail = seq!['.'] + decimal(update_max) + nothing;
                if key == decimal(major) {
                    let further = decimal(minor_max) + tail;
                    assert(version =~= key + seq!['.'] + further);
                    assert(version.take(key.len() as int) =~= key);
                } else if is_patch_key(key, major, minor_min, minor_max, update_min, update_max) {
                    assert(version =~= key);
                } else {
                    assert(version == key + tail);
                    assert(version.take(key.len() as int) =~= key);
                }
            },
            None => {
                if key == decimal(major) {
                    let further = decimal(minor_max) + nothing;
                    assert(version =~= key + seq!['.'] + further);
                    assert(version.take(key.len() as int) =~= key);
                } else {
                    assert(version =~= key);
                }
            },
        }
    }
}

/// Merging keeps the versions extending their keys.
pub proof fn lemma_merged_versions_extend_keys(
    first: Map<Seq<char>, Seq<char>>,
    second: Map<Seq<char>, Seq<char>>,
)
    requires
        versions_extend_keys(first),
        versions_extend_keys(second),
    ensures
        versions_extend_keys(first.union_prefer_right(second)),
{
    let merged = first.union_prefer_right(second);
    assert forall|key: Seq<char>| #[trigger] merged.contains_key(key) implies extends_key(
        key,
        merged[key],
    ) by {
        if second.contains_key(key) {
        } else {
            assert(first.contains_key(key));
        }
    }
}

/// Taking an entry out keeps the versions extending their keys.
pub proof fn lemma_remaining_versions_extend_keys(
    versions: Map<Seq<char>, Seq<char>>,
    removed: Seq<char>,
)
    requires
        versions_extend_keys(versions),
    ensures
        versions_extend_keys(versions.remove(removed)),
{
    let remaining = versions.remove(removed);
    assert forall|key: Seq<char>| #[trigger] remaining.contains_key(key) implies extends_key(
        key,
        remaining[key],
    ) by {
        assert(versions.contains_key(key));
    }
}

/// In each catalog of an engine that is run in the cluster, every version
/// extends its key.
pub proof fn lemma_self_hosted_versions_extend_keys()
    ensures
        versions_extend_keys(self_hosted_postgres_versions()),
        versions_extend_keys(self_hosted_mysql_versions()),
        versions_extend_keys(self_hosted_mongodb_versions()),
        versions_extend_keys(self_hosted_redis_versions()),
{
    let none = Seq::<char>::empty();
    lemma_generated_versions_extend_keys(10, 1, 14, Some((0int, 0int)));
    lemma_generated_versions_extend_keys(11, 1, 9, Some((0int, 0int)));
    lemma_generated_versions_extend_keys(12, 2, 4, Some((0int, 0int)));
    lemma_merged_versions_extend_keys(
        generated_versions(10, 1, 14, Some((0int, 0int)), none),
        generated_versions(11, 1, 9, Some((0int, 0int)), none),
    );
    lemma_merged_versions_extend_keys(
        generated_versions(10, 1, 14, Some((0int, 0int)), none).union_prefer_right(
            generated_versions(11, 1, 9, Some((0int, 0int)), none),
        ),
        generated_versions(12, 2, 4, Some((0int, 0int)), none),
    );
    lemma_generated_versions_extend_keys(5, 7, 7, Some((16int, 31int)));
    lemma_generated_versions_extend_keys(8, 0, 0, Some((11int, 21int)));
    lemma_merged_versions_extend_keys(
        generated_versions(5, 7, 7, Some((16int, 31int)), none),
        generated_versions(8, 0, 0, Some((11int, 21int)), none),
    );
    lemma_generated_versions_extend_keys(3, 6, 6, Some((0int, 21int)));
    lemma_generated_versions_extend_keys(4, 0, 0, Some((0int, 21int)));
    lemma_generated_versions_extend_keys(4, 2, 2, Some((0int, 11int)));
    lemma_generated_versions_extend_keys(4, 4, 4, Some((0int, 2int)));
    let mongo_a = generated_versions(3, 6, 6, Some((0int, 21int)), none).union_prefer_right(
        generated_versions(4, 0, 0, Some((0int, 21int)), none),
    );
    lemma_merged_versions_extend_keys(
        generated_versions(3, 6, 6, Some((0int, 21int)), none),
        generated_versions(4, 0, 0, Some((0int, 21int)), none),
    );
    lemma_merged_versions_extend_keys(
        mongo_a,
        generated_versions(4, 2, 2, Some((0int, 11int)), none),
    );
    lemma_merged_versions_extend_keys(
        mongo_a.union_prefer_right(generated_versions(4, 2, 2, Some((0int, 11int)), none)),
        generated_versions(4, 4, 4, Some((0int, 2int)), none),
    );
    reveal_strlit("6");
    reveal_strlit("6.0");
    reveal_strlit("6.0.9");
    reveal_strlit("5");
    reveal_strlit("5.0");
    reveal_strlit("5.0.10");
    let redis = self_hosted_redis_versions();
    assert forall|key: Seq<char>| #[trigger] redis.contains_key(key) implies extends_key(
        key,
        redis[key],
    ) by {
        assert("6.0.9"@.take(1) =~= "6"@);
        assert("6.0.9"@.take(3) =~= "6.0"@);
        assert("5.0.10"@.take(1) =~= "5"@);
        assert("5.0.10"@.take(3) =~= "5.0"@);
    }
}

/// Texts that are equal once the same text is appended to both are equal.
pub proof fn lemma_same_suffix(first: Seq<char>, second: Seq<char>, suffix: Seq<char>)
    requires
        first + suffix == second + suffix,
    ensures
        first == second,
{
    let whole = first + suffix;
    assert(whole.len() == first.len() + suffix.len());
    assert(whole.len() == second.len() + suffix.len());
    assert(first.len() == second.len());
    assert(whole.take(first.len() as int) =~= first);
    assert((second + suffix).take(second.len() as int) =~= second);
}

/// Taking one update out of a range makes a request for that update
/// unsupported, and leaves the requests for its minor and its major
/// resolving as before: to the last update of the minor, and to the last
/// update of the last minor. Unless the update taken out was itself the
/// last of its minor, the version of the minor differs from the one taken
/// out and still has its own entry; unless it was the last of the last
/// minor, so does the version of the major.
pub proof fn lemma_removed_update_is_unsupported(
    database_name: Seq<char>,
    major: int,
    minor_min: int,
    minor_max: int,
    update_min: int,
    update_max: int,
    suffix: Seq<char>,
    minor: int,
    update: int,
)
    requires
        minor_min <= minor <= minor_max,
        update_min <= update <= update_max,
    ensures
        ({
            let removed = patch_key(major, minor, update);
            let generated = generated_versions(
                major,
                minor_min,
                minor_max,
                Some((update_min, update_max)),
                suffix,
            );
            let versions = generated.remove(removed);
            let latest_of_minor = patch_key(major, minor, update_max);
            let latest = patch_key(major, minor_max, update_max);
            &&& generated.contains_key(removed) && generated[removed] == removed + suffix
            &&& resolved_version(database_name, versions, removed) == Err::<
                Seq<char>,
                StringErrorView,
            >(
                StringErrorView {
                    kind: StringErrorKind::UnsupportedVersion,
                    message: unsupported_version_message(database_name, removed),
                },
            )
            &&& resolved_version(database_name, versions, minor_key(major, minor)) == Ok::<
                Seq<char>,
                StringErrorView,
            >(latest_of_minor + suffix)
            &&& resolved_version(database_name, versions, decimal(major)) == Ok::<
                Seq<char>,
                StringErrorView,
            >(latest + suffix)
            &&& update != update_max ==> {
                &&& latest_of_minor + suffix != removed + suffix
                &&& versions.contains_key(latest_of_minor)
                &&& versions[latest_of_minor] == latest_of_minor + suffix
            }
            &&& update != update_max || minor != minor_max ==> {
                &&& latest + suffix != removed + suffix
                &&& versions.contains_key(latest)
                &&& versions[latest] == latest + suffix
            }
        }),
{
    let removed = patch_key(major, minor, update);
    let generated = generated_versions(
        major,
        minor_min,
        minor_max,
        Some((update_min, update_max)),
        suffix,
    );
    let latest_of_minor = patch_key(major, minor, update_max);
    let latest = patch_key(major, minor_max, update_max);
    let short = minor_key(major, minor);
    let tail = seq!['.'] + decimal(update_max) + suffix;
    let patches = patch_entries(major, minor_min, minor_max, update_min, update_max, suffix);
    let minors = minor_entries(major, minor_min, minor_max, tail);
    lemma_parsed_keys(major, minor, update);
    lemma_parsed_keys(major, minor, update_max);
    lemma_parsed_keys(major, minor_max, update_max);
    if update != update_max && decimal(update) == decimal(update_max) {
        lemma_decimal_injective(update, update_max);
    }
    if minor != minor_max && decimal(minor) == decimal(minor_max) {
        lemma_decimal_injective(minor, minor_max);
    }
    assert(update != update_max ==> removed != latest_of_minor);
    assert(update != update_max || minor != minor_max ==> removed != latest);
    assert(removed != short);
    assert(removed != decimal(major));
    assert(short != decimal(major));
    assert(latest != decimal(major));
    assert(latest_of_minor != decimal(major));
    assert(!is_patch_key(short, major, minor_min, minor_max, update_min, update_max)) by {
        assert forall|other_minor: int, other_update: int| #[trigger]
            patch_key(major, other_minor, other_update) != short by {
            lemma_parsed_keys(major, other_minor, other_update);
        }
    }
    assert(is_minor_key(short, major, minor_min, minor_max));
    assert(is_patch_key(removed, major, minor_min, minor_max, update_min, update_max));
    assert(is_patch_key(latest_of_minor, major, minor_min, minor_max, update_min, update_max));
    assert(is_patch_key(latest, major, minor_min, minor_max, update_min, update_max));
    assert(patches.contains_key(removed));
    assert(patches.contains_key(latest));
    assert(patches.contains_key(latest_of_minor));
    assert(minors.contains_key(short) && !patches.contains_key(short));
    assert(generated[short] == short + tail);
    assert(short + tail =~= latest_of_minor + suffix);
    assert(minor_key(major, minor_max) + tail =~= latest + suffix);
    assert(generated[decimal(major)] == latest + suffix);
    if latest_of_minor + suffix == removed + suffix {
        lemma_same_suffix(latest_of_minor, removed, suffix);
    }
    if latest + suffix == removed + suffix {
        lemma_same_suffix(latest, removed, suffix);
    }
}

/// Whether two outcomes of a resolution are the same: the same version, or
/// the same error.
pub open spec fn same_outcome(
    first: Result<String, StringError>,
    second: Result<String, StringError>,
) -> bool {
    match (first, second) {
        (Ok(one), Ok(other)) => one@ == other@,
        (Err(one), Err(other)) => one@ == other@,
        _ => false,
    }
}

/// A resolution depends on nothing but the engine's name, the catalog and
/// the request: two outcomes for the same three are the same outcome.
pub proof fn lemma_resolution_is_deterministic(
    database_name: Seq<char>,
    versions: Map<Seq<char>, Seq<char>>,
    requested: Seq<char>,
    first: Result<String, StringError>,
    second: Result<String, StringError>,
)
    requires
        is_resolution(first, resolved_version(database_name, versions, requested)),
        is_resolution(second, resolved_version(database_name, versions, requested)),
    ensures
        same_outcome(first, second),
{
}

/// In a catalog that a range without suffix expands to, where neither the
/// minors nor the updates are an empty range, every version that a key maps
/// to has an entry of its own, which maps it to itself.
pub proof fn lemma_generated_versions_are_entries(
    major: int,
    minor_min: int,
    minor_max: int,
    updates: Option<(int, int)>,
)
    requires
        minor_min <= minor_max,
        updates matches Some((update_min, update_max)) ==> update_min <= update_max,
    ensures
        ({
            let versions = generated_versions(major, minor_min, minor_max, updates, Seq::empty());
            forall|key: Seq<char>| #[trigger]
                versions.contains_key(key) ==> versions.contains_key(versions[key])
                    && versions[versions[key]] == versions[key]
        }),
{
    let nothing = Seq::<char>::empty();
    let versions = generated_versions(major, minor_min, minor_max, updates, nothing);
    assert forall|key: Seq<char>| #[trigger] versions.contains_key(key) implies versions.contains_key(
        versions[key],
    ) && versions[versions[key]] == versions[key] by {
        let version = versions[key];
        match updates {
            Some((update_min, update_max)) => {
                let tail = seq!['.'] + decimal(update_max) + nothing;
                if key == decimal(major) {
                    assert(version =~= patch_key(major, minor_max, update_max));
                    lemma_parsed_keys(major, minor_max, update_max);
                    assert(is_patch_key(
                        version,
                        major,
                        minor_min,
                        minor_max,
                        update_min,
                        update_max,
                    ));
                    assert(versions[version] =~= version);
                } else if is_patch_key(key, major, minor_min, minor_max, update_min, update_max) {
                    assert(version =~= key);
                } else {
                    let minor = choose|minor: int|
                        minor_min <= minor <= minor_max && key == #[trigger] minor_key(
                            major,
                            minor,
                        );
                    assert(version =~= patch_key(major, minor, update_max));
                    lemma_parsed_keys(major, minor, update_max);
                    assert(is_patch_key(
                        version,
                        major,
                        minor_min,
                        minor_max,
                        update_min,
                        update_max,
                    ));
                    assert(versions[version] =~= version);
                }
            },
            None => {
                if key == decimal(major) {
                    assert(version =~= minor_key(major, minor_max));
                    lemma_parsed_keys(major, minor_max, 0);
                    assert(is_minor_key(version, major, minor_min, minor_max));
                    assert(versions[version] =~= version);
                } else {
                    assert(version =~= key);
                }
            },
        }
    }
}

/// Whether every version that a key of the catalog maps to has an entry of
/// its own, which maps it to itself.
pub open spec fn versions_are_entries(versions: Map<Seq<char>, Seq<char>>) -> bool {
    forall|key: Seq<char>| #[trigger]
        versions.contains_key(key) ==> versions.contains_key(versions[key])
            && versions[versions[key]] == versions[key]
}

/// Whether a catalog is one of patches: every key that names a patch maps
/// to itself, and every version that a key maps to names a patch and has
/// an entry.
pub open spec fn is_catalog_of_patches(versions: Map<Seq<char>, Seq<char>>) -> bool {
    forall|key: Seq<char>| #[trigger]
        versions.contains_key(key) ==> {
            &&& parsed_version(key).patch is Some ==> versions[key] == key
            &&& parsed_version(versions[key]).patch is Some
            &&& versions.contains_key(versions[key])
        }
}

/// Whether no other key of the catalog maps to `version`.
pub open spec fn is_version_of_no_other_key(
    versions: Map<Seq<char>, Seq<char>>,
    version: Seq<char>,
) -> bool {
    forall|key: Seq<char>| #[trigger]
        versions.contains_key(key) && key != version ==> versions[key] != version
}

/// In a catalog of patches, every version has an entry of its own, which
/// maps it to itself.
pub proof fn lemma_catalog_of_patches_holds_its_versions(versions: Map<Seq<char>, Seq<char>>)
    requires
        is_catalog_of_patches(versions),
    ensures
        versions_are_entries(versions),
{
    assert forall|key: Seq<char>| #[trigger] versions.contains_key(key) implies versions.contains_key(
        versions[key],
    ) && versions[versions[key]] == versions[key] by {
        assert(versions.contains_key(versions[key]));
    }
}

/// The catalog that a range with updates and without suffix expands to is
/// one of patches, where neither the minors nor the updates are an empty
/// range.
pub proof fn lemma_generated_versions_are_patches(
    major: int,
    minor_min: int,
    minor_max: int,
    update_min: int,
    update_max: int,
)
    requires
        minor_min <= minor_max,
        update_min <= update_max,
    ensures
        is_catalog_of_patches(
            generated_versions(
                major,
                minor_min,
                minor_max,
                Some((update_min, update_max)),
                Seq::empty(),
            ),
        ),
{
    let nothing = Seq::<char>::empty();
    let versions = generated_versions(
        major,
        minor_min,
        minor_max,
        Some((update_min, update_max)),
        nothing,
    );
    let tail = seq!['.'] + decimal(update_max) + nothing;
    assert forall|key: Seq<char>| #[trigger] versions.contains_key(key) implies {
        &&& parsed_version(key).patch is Some ==> versions[key] == key
        &&& parsed_version(versions[key]).patch is Some
        &&& versions.contains_key(versions[key])
    } by {
        let version = versions[key];
        if key == decimal(major) {
            lemma_parsed_keys(major, minor_max, update_max);
            assert(version =~= patch_key(major, minor_max, update_max));
            assert(is_patch_key(version, major, minor_min, minor_max, update_min, update_max));
        } else if is_patch_key(key, major, minor_min, minor_max, update_min, update_max) {
            let (minor, update) = choose|minor: int, update: int|
                minor_min <= minor <= minor_max && update_min <= update <= update_max && key
                    == #[trigger] patch_key(major, minor, update);
            lemma_parsed_keys(major, minor, update);
            assert(version =~= key);
        } else {
            let minor = choose|minor: int|
                minor_min <= minor <= minor_max && key == #[trigger] minor_key(major, minor);
            lemma_parsed_keys(major, minor, update_max);
            assert(version =~= patch_key(major, minor, update_max));
            assert(is_patch_key(version, major, minor_min, minor_max, update_min, update_max));
        }
    }
}

/// Merging two catalogs of patches gives a catalog of patches.
pub proof fn lemma_merged_versions_are_patches(
    first: Map<Seq<char>, Seq<char>>,
    second: Map<Seq<char>, Seq<char>>,
)
    requires
        is_catalog_of_patches(first),
        is_catalog_of_patches(second),
    ensures
        is_catalog_of_patches(first.union_prefer_right(second)),
{
    let merged = first.union_prefer_right(second);
    assert forall|key: Seq<char>| #[trigger] merged.contains_key(key) implies {
        &&& parsed_version(key).patch is Some ==> merged[key] == key
        &&& parsed_version(merged[key]).patch is Some
        &&& merged.contains_key(merged[key])
    } by {
        if second.contains_key(key) {
            assert(second.contains_key(second[key]));
        } else {
            assert(first.contains_key(key));
            assert(first.contains_key(first[key]));
        }
    }
}

/// Taking out of a catalog of patches entries whose keys no other key maps
/// to leaves a catalog of patches.
pub proof fn lemma_remaining_versions_are_patches(
    versions: Map<Seq<char>, Seq<char>>,
    removed: Set<Seq<char>>,
)
    requires
        is_catalog_of_patches(versions),
        forall|version: Seq<char>| #[trigger]
            removed.contains(version) ==> is_version_of_no_other_key(versions, version),
    ensures
        is_catalog_of_patches(versions.remove_keys(removed)),
{
    let remaining = versions.remove_keys(removed);
    assert forall|key: Seq<char>| #[trigger] remaining.contains_key(key) implies {
        &&& parsed_version(key).patch is Some ==> remaining[key] == key
        &&& parsed_version(remaining[key]).patch is Some
        &&& remaining.contains_key(remaining[key])
    } by {
        assert(versions.contains_key(key));
        assert(versions.contains_key(versions[key]));
        if removed.contains(versions[key]) {
            assert(is_version_of_no_other_key(versions, versions[key]));
        }
    }
}

/// In the catalog that a range expands to, no key but its own maps to an
/// update that is not the last of the range.
pub proof fn lemma_update_is_version_of_no_other_key(
    major: int,
    minor_min: int,
    minor_max: int,
    update_min: int,
    update_max: int,
    minor: int,
    update: int,
)
    requires
        update != update_max,
    ensures
        is_version_of_no_other_key(
            generated_versions(
                major,
                minor_min,
                minor_max,
                Some((update_min, update_max)),
                Seq::empty(),
            ),
            patch_key(major, minor, update),
        ),
{
    let nothing = Seq::<char>::empty();
    let versions = generated_versions(
        major,
        minor_min,
        minor_max,
        Some((update_min, update_max)),
        nothing,
    );
    let target = patch_key(major, minor, update);
    lemma_parsed_keys(major, minor, update);
    if decimal(update) == decimal(update_max) {
        lemma_decimal_injective(update, update_max);
    }
    assert forall|key: Seq<char>| #[trigger]
        versions.contains_key(key) && key != target implies versions[key] != target by {
        let version = versions[key];
        if key == decimal(major) {
            lemma_parsed_keys(major, minor_max, update_max);
            assert(version =~= patch_key(major, minor_max, update_max));
        } else if is_patch_key(key, major, minor_min, minor_max, update_min, update_max) {
            assert(version =~= key);
        } else {
            let other = choose|other: int|
                minor_min <= other <= minor_max && key == #[trigger] minor_key(major, other);
            lemma_parsed_keys(major, other, update_max);
            assert(version =~= patch_key(major, other, update_max));
        }
    }
}

/// In each catalog of an engine that is run in the cluster, every version
/// that a key maps to has an entry of its own, which maps it to itself.
pub proof fn lemma_self_hosted_versions_are_entries()
    ensures
        versions_are_entries(self_hosted_postgres_versions()),
        versions_are_entries(self_hosted_mysql_versions()),
        versions_are_entries(self_hosted_mongodb_versions()),
        versions_are_entries(self_hosted_redis_versions()),
{
    let none = Seq::<char>::empty();
    let p10 = generated_versions(10, 1, 14, Some((0int, 0int)), none);
    let p11 = generated_versions(11, 1, 9, Some((0int, 0int)), none);
    let p12 = generated_versions(12, 2, 4, Some((0int, 0int)), none);
    lemma_generated_versions_are_patches(10, 1, 14, 0, 0);
    lemma_generated_versions_are_patches(11, 1, 9, 0, 0);
    lemma_generated_versions_are_patches(12, 2, 4, 0, 0);
    lemma_merged_versions_are_patches(p10, p11);
    lemma_merged_versions_are_patches(p10.union_prefer_right(p11), p12);
    lemma_catalog_of_patches_holds_its_versions(self_hosted_postgres_versions());

    let m57 = generated_versions(5, 7, 7, Some((16int, 31int)), none);
    let m80 = generated_versions(8, 0, 0, Some((11int, 21int)), none);
    lemma_generated_versions_are_patches(5, 7, 7, 16, 31);
    lemma_generated_versions_are_patches(8, 0, 0, 11, 21);
    lemma_merged_versions_are_patches(m57, m80);
    lemma_catalog_of_patches_holds_its_versions(self_hosted_mysql_versions());

    let g36 = generated_versions(3, 6, 6, Some((0int, 21int)), none);
    let g40 = generated_versions(4, 0, 0, Some((0int, 21int)), none);
    let g42 = generated_versions(4, 2, 2, Some((0int, 11int)), none);
    let g44 = generated_versions(4, 4, 4, Some((0int, 2int)), none);
    lemma_generated_versions_are_patches(3, 6, 6, 0, 21);
    lemma_generated_versions_are_patches(4, 0, 0, 0, 21);
    lemma_generated_versions_are_patches(4, 2, 2, 0, 11);
    lemma_generated_versions_are_patches(4, 4, 4, 0, 2);
    lemma_merged_versions_are_patches(g36, g40);
    lemma_merged_versions_are_patches(g36.union_prefer_right(g40), g42);
    lemma_merged_versions_are_patches(g36.union_prefer_right(g40).union_prefer_right(g42), g44);
    lemma_catalog_of_patches_holds_its_versions(self_hosted_mongodb_versions());

    reveal_strlit("6");
    reveal_strlit("6.0");
    reveal_strlit("6.0.9");
    reveal_strlit("5");
    reveal_strlit("5.0");
    reveal_strlit("5.0.10");
    let redis = self_hosted_redis_versions();
    assert forall|key: Seq<char>| #[trigger] redis.contains_key(key) implies redis.contains_key(
        redis[key],
    ) && redis[redis[key]] == redis[key] by {
        assert("6"@.len() == 1 && "6.0"@.len() == 3 && "6.0.9"@.len() == 5);
        assert("5"@.len() == 1 && "5.0"@.len() == 3 && "5.0.10"@.len() == 6);
        assert("6"@[0] != "5"@[0]);
        assert("6.0"@[0] != "5.0"@[0]);
    }
}

} // verus!
