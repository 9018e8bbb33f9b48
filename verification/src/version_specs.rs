//! Version lists, version requests and the tool's registration, built with
//! proto's version specifications.
use vstd::prelude::*;
use vstd::string::*;
use proto_pdk::{LoadVersionsOutput, SpecError, UnresolvedVersionSpec, Version, VersionSpec};
use crate::download::TOOL_NAME;
use crate::versions::{filter_release_tags, is_v2_alias, release_tags, spec_is_v2_alias, string_views};

verus! {

#[verifier::external_type_specification]
#[verifier::external_body]
pub struct ExUnresolvedVersionSpec(UnresolvedVersionSpec);

#[verifier::external_type_specification]
#[verifier::external_body]
pub struct ExSpecError(SpecError);

#[verifier::external_type_specification]
#[verifier::external_body]
pub struct ExLoadVersionsOutput(LoadVersionsOutput);

#[verifier::external_type_specification]
#[verifier::external_body]
pub struct ExVersion(Version);

#[verifier::external_type_specification]
#[verifier::external_body]
pub struct ExVersionSpec(VersionSpec);

/// What proto's `VersionSpec::parse` gives for `text`: the version
/// specification, or the error that refuses it.
pub uninterp spec fn parsed_version_spec(text: Seq<char>) -> Result<VersionSpec, SpecError>;

/// Where `values` first fails to parse as a version specification: an index
/// whose value is refused, all values before it parsing.
pub open spec fn is_first_refusal(values: Seq<Seq<char>>, i: int, error: SpecError) -> bool {
    &&& 0 <= i < values.len()
    &&& parsed_version_spec(values[i]) == Err::<VersionSpec, SpecError>(error)
    &&& forall|j: int| 0 <= j < i ==> (#[trigger] parsed_version_spec(values[j])) is Ok
}

/// What proto's `LoadVersionsOutput::from` builds from `values` when it succeeds.
pub uninterp spec fn versions_output(values: Seq<Seq<char>>) -> LoadVersionsOutput;

/// What proto's `UnresolvedVersionSpec::parse` gives for `text`: the
/// specification, or the error that refuses it.
pub uninterp spec fn parsed_unresolved_spec(text: Seq<char>) -> Result<
    UnresolvedVersionSpec,
    SpecError,
>;

/// What proto's `Version::parse` makes of `text`: the version, or `None`
/// when the text does not parse.
pub uninterp spec fn parsed_version(text: Seq<char>) -> Option<Version>;

/// Calls `LoadVersionsOutput::from`, which parses each value with
/// `VersionSpec::parse` and fails with the first error; on success it lists
/// the versions in order and marks the highest stable one as `latest`.
/// Stated: it succeeds exactly when every value parses, it fails with the
/// parse error of the first value that does not, and what it builds depends
/// on the values alone. Not stated: the contents of the output.
#[verifier::external_body]
fn versions_output_from(values: Vec<String>) -> (res: Result<LoadVersionsOutput, SpecError>)
    ensures
        res is Ok <==> forall|i: int|
            0 <= i < values@.len() ==> (#[trigger] parsed_version_spec(values@[i]@)) is Ok,
        res matches Ok(out) ==> out == versions_output(string_views(values@)),
        res matches Err(e) ==> exists|i: int| #[trigger] is_first_refusal(string_views(values@), i, e),
{
    LoadVersionsOutput::from(values)
}

/// Calls `UnresolvedVersionSpec::parse` on `text`.
/// Stated: the result is the named parse of the text.
#[verifier::external_body]
fn parse_unresolved_spec(text: &str) -> (res: Result<UnresolvedVersionSpec, SpecError>)
    ensures
        res == parsed_unresolved_spec(text@),
{
    UnresolvedVersionSpec::parse(text)
}

/// Calls `Version::parse` on `text`, keeping the version when it parses.
/// Stated: the result is the named parse of the text.
#[verifier::external_body]
fn parse_version(text: &str) -> (res: Option<Version>)
    ensures
        res == parsed_version(text@),
{
    Version::parse(text).ok()
}

/// The requirement that the `v2` alias resolves to.
pub const V2_REQUIREMENT: &'static str = ">=2.0.0";

/// Builds the list of available versions from the Git tags of the AWS CLI
/// repository: only stable version 2 release tags are kept, and they are
/// handed, in order, to `LoadVersionsOutput::from`.
pub fn load_versions(tags: Vec<String>) -> (res: Result<LoadVersionsOutput, SpecError>)
    ensures
        res is Ok <==> forall|i: int|
            0 <= i < release_tags(string_views(tags@)).len() ==> (#[trigger] parsed_version_spec(
                release_tags(string_views(tags@))[i],
            )) is Ok,
        res matches Ok(out) ==> out == versions_output(release_tags(string_views(tags@))),
        res matches Err(e) ==> exists|i: int|
            #[trigger] is_first_refusal(release_tags(string_views(tags@)), i, e),
{
    let kept = filter_release_tags(tags);
    let res = versions_output_from(kept);
    proof {
        let views = string_views(kept@);
        assert forall|i: int| 0 <= i < kept@.len() implies #[trigger] kept@[i]@ == views[i] by {}
    }
    res
}

/// Resolves a requested alias or version, given as text: `v2` and `2` become
/// the requirement `>=2.0.0`; anything else has no candidate.
pub fn resolve_version(initial: &str) -> (res: Result<Option<UnresolvedVersionSpec>, SpecError>)
    ensures
        spec_is_v2_alias(initial@) ==> match parsed_unresolved_spec(V2_REQUIREMENT@) {
            Ok(spec) => res == Ok::<Option<UnresolvedVersionSpec>, SpecError>(Some(spec)),
            Err(e) => res == Err::<Option<UnresolvedVersionSpec>, SpecError>(e),
        },
        !spec_is_v2_alias(initial@) ==> res matches Ok(None),
{
    if is_v2_alias(initial) {
        match parse_unresolved_spec(V2_REQUIREMENT) {
            Ok(spec) => Ok(Some(spec)),
            Err(e) => Err(e),
        }
    } else {
        Ok(None)
    }
}

/// Kinds of tools a proto plugin can provide.
#[derive(Clone, Copy, Debug, PartialEq, Eq, Structural)]
pub enum ToolKind {
    CommandLine,
    Language,
    DependencyManager,
    VersionManager,
}

/// What the plugin tells proto about the tool when it is registered.
pub struct ToolRegistration {
    pub name: String,
    pub kind: ToolKind,
    /// The oldest proto release, as (major, minor, patch), that runs the plugin.
    pub minimum_proto_version: (u32, u32, u32),
    /// The version of the plugin itself, when its text parses.
    pub plugin_version: Option<Version>,
    /// Commands of the tool that upgrade it in place, which proto must block.
    pub self_upgrade_commands: Vec<String>,
}

/// Describes the AWS CLI to proto: a command-line tool named "AWS CLI" that
/// needs proto 0.61.0 or later, whose `upgrade` command must be blocked; the
/// plugin's own version is `plugin_version` as proto's `Version::parse` reads it.
pub fn register_tool(plugin_version: &str) -> (res: ToolRegistration)
    ensures
        res.plugin_version == parsed_version(plugin_version@),
        res.name@ == TOOL_NAME@,
        res.kind == ToolKind::CommandLine,
        res.minimum_proto_version == (0u32, 61u32, 0u32),
        string_views(res.self_upgrade_commands@) == seq!["upgrade"@],
{
    let commands = vec![String::from_str("upgrade")];
    proof {
        assert(string_views(commands@) =~= seq!["upgrade"@]);
    }
    ToolRegistration {
        name: String::from_str(TOOL_NAME),
        kind: ToolKind::CommandLine,
        minimum_proto_version: (0, 61, 0),
        plugin_version: parse_version(plugin_version),
        self_upgrade_commands: commands,
    }
}

/// A list of values has one first refusal: the index and the error are
/// determined by the values. With the contract of `load_versions`, whose
/// result depends on the tags only through the kept tags, two lists with the
/// same kept tags (see `law_rejected_tag_is_ignored`) load to the same
/// versions or fail with the same error.
pub proof fn law_first_refusal_unique(
    values: Seq<Seq<char>>,
    i: int,
    j: int,
    e1: SpecError,
    e2: SpecError,
)
    requires
        is_first_refusal(values, i, e1),
        is_first_refusal(values, j, e2),
    ensures
        i == j,
        e1 == e2,
{
    if i < j {
        assert(parsed_version_spec(values[i]) is Ok);
    } else if j < i {
        assert(parsed_version_spec(values[j]) is Ok);
    }
}

} // verus!
