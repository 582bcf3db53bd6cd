//! Git Flow: configuration, the kind of the checked-out branch, and what
//! starting or finishing a flow branch involves.
use crate::text::{begins_with, chars_of, same_text, slice_chars, starts_with_str, string_of};
use vstd::prelude::*;

verus! {

#[derive(Clone, Debug)]
pub struct GitFlowConfig {
    pub initialized: bool,
    pub master_branch: String,
    pub develop_branch: String,
    pub feature_prefix: String,
    pub release_prefix: String,
    pub hotfix_prefix: String,
    pub version_tag_prefix: String,
}

#[derive(Clone, Copy, Debug, PartialEq, Eq, Structural)]
pub enum GitFlowBranchType {
    Feature,
    Release,
    Hotfix,
    Master,
    Develop,
    Other,
}

#[derive(Clone, Debug)]
pub struct CurrentBranchFlowInfo {
    pub branch_type: GitFlowBranchType,
    /// The branch name without its flow prefix.
    pub name: String,
}

pub open spec fn or_default(o: Option<String>, d: Seq<char>) -> Seq<char> {
    match o {
        Some(s) => s@,
        None => d,
    }
}

fn value_or(o: Option<String>, d: &str) -> (r: String)
    ensures
        r@ == or_default(o, d@),
{
    match o {
        Some(s) => s,
        None => String::from_str(d),
    }
}

/// The configuration from the repository's stored values; it counts as
/// initialised when a production branch is stored, and otherwise every
/// value is the default.
pub fn gitflow_config_from(
    master: Option<String>,
    develop: Option<String>,
    feature: Option<String>,
    release: Option<String>,
    hotfix: Option<String>,
    version_tag: Option<String>,
) -> (r: GitFlowConfig)
    ensures
        r.initialized == master is Some,
        r.master_branch@ == or_default(master, "master"@),
        r.develop_branch@ == (if r.initialized {
            or_default(develop, "develop"@)
        } else {
            "develop"@
        }),
        r.feature_prefix@ == (if r.initialized {
            or_default(feature, "feature/"@)
        } else {
            "feature/"@
        }),
        r.release_prefix@ == (if r.initialized {
            or_default(release, "release/"@)
        } else {
            "release/"@
        }),
        r.hotfix_prefix@ == (if r.initialized {
            or_default(hotfix, "hotfix/"@)
        } else {
            "hotfix/"@
        }),
        r.version_tag_prefix@ == (if r.initialized {
            or_default(version_tag, ""@)
        } else {
            ""@
        }),
{
    if master.is_none() {
        return GitFlowConfig {
            initialized: false,
            master_branch: String::from_str("master"),
            develop_branch: String::from_str("develop"),
            feature_prefix: String::from_str("feature/"),
            release_prefix: String::from_str("release/"),
            hotfix_prefix: String::from_str("hotfix/"),
            version_tag_prefix: String::from_str(""),
        };
    }
    GitFlowConfig {
        initialized: true,
        master_branch: value_or(master, "master"),
        develop_branch: value_or(develop, "develop"),
        feature_prefix: value_or(feature, "feature/"),
        release_prefix: value_or(release, "release/"),
        hotfix_prefix: value_or(hotfix, "hotfix/"),
        version_tag_prefix: value_or(version_tag, ""),
    }
}

/// The flow kind of branch `b` and its name without prefix: the production
/// and development branches by name, then the feature, release and hotfix
/// prefixes in that order.
pub open spec fn flow_info_of(b: Seq<char>, c: GitFlowConfig) -> (GitFlowBranchType, Seq<char>) {
    if b == c.master_branch@ {
        (GitFlowBranchType::Master, b)
    } else if b == c.develop_branch@ {
        (GitFlowBranchType::Develop, b)
    } else if begins_with(b, c.feature_prefix@) {
        (GitFlowBranchType::Feature, b.skip(c.feature_prefix@.len() as int))
    } else if begins_with(b, c.release_prefix@) {
        (GitFlowBranchType::Release, b.skip(c.release_prefix@.len() as int))
    } else if begins_with(b, c.hotfix_prefix@) {
        (GitFlowBranchType::Hotfix, b.skip(c.hotfix_prefix@.len() as int))
    } else {
        (GitFlowBranchType::Other, b)
    }
}

fn without_prefix(b: &Vec<char>, prefix: &str) -> (r: Option<String>)
    ensures
        match r {
            Some(s) => begins_with(b@, prefix@) && s@ == b@.skip(prefix@.len() as int),
            None => !begins_with(b@, prefix@),
        },
{
    if starts_with_str(b, prefix) {
        let p = chars_of(prefix);
        let rest = slice_chars(b, p.len(), b.len());
        assert(rest@ =~= b@.skip(prefix@.len() as int));
        Some(string_of(&rest))
    } else {
        None
    }
}

/// The flow kind of the branch named `branch_name`.
pub fn branch_flow_info(branch_name: &str, config: &GitFlowConfig) -> (r: CurrentBranchFlowInfo)
    ensures
        (r.branch_type, r.name@) == flow_info_of(branch_name@, *config),
{
    if same_text(branch_name, config.master_branch.as_str()) {
        return CurrentBranchFlowInfo {
            branch_type: GitFlowBranchType::Master,
            name: String::from_str(branch_name),
        };
    }
    if same_text(branch_name, config.develop_branch.as_str()) {
        return CurrentBranchFlowInfo {
            branch_type: GitFlowBranchType::Develop,
            name: String::from_str(branch_name),
        };
    }
    let b = chars_of(branch_name);
    if let Some(n) = without_prefix(&b, config.feature_prefix.as_str()) {
        return CurrentBranchFlowInfo { branch_type: GitFlowBranchType::Feature, name: n };
    }
    if let Some(n) = without_prefix(&b, config.release_prefix.as_str()) {
        return CurrentBranchFlowInfo { branch_type: GitFlowBranchType::Release, name: n };
    }
    if let Some(n) = without_prefix(&b, config.hotfix_prefix.as_str()) {
        return CurrentBranchFlowInfo { branch_type: GitFlowBranchType::Hotfix, name: n };
    }
    CurrentBranchFlowInfo { branch_type: GitFlowBranchType::Other, name: String::from_str(branch_name) }
}

/// The kinds of branch a flow starts and finishes.
#[derive(Clone, Copy, Debug, PartialEq, Eq, Structural)]
pub enum FlowKind {
    Feature,
    Release,
    Hotfix,
}

impl FlowKind {
    pub open spec fn word(self) -> Seq<char> {
        match self {
            FlowKind::Feature => "feature"@,
            FlowKind::Release => "release"@,
            FlowKind::Hotfix => "hotfix"@,
        }
    }

    /// The word that names this kind.
    pub fn word_text(&self) -> (r: &'static str)
        ensures
            r@ == self.word(),
    {
        match self {
            FlowKind::Feature => "feature",
            FlowKind::Release => "release",
            FlowKind::Hotfix => "hotfix",
        }
    }

    /// The kind named by `s` ("feature", "release" or "hotfix").
    pub fn parse(s: &str) -> (r: Option<FlowKind>)
        ensures
            match r {
                Some(k) => s@ == k.word(),
                None => s@ != "feature"@ && s@ != "release"@ && s@ != "hotfix"@,
            },
    {
        if same_text(s, "feature") {
            Some(FlowKind::Feature)
        } else if same_text(s, "release") {
            Some(FlowKind::Release)
        } else if same_text(s, "hotfix") {
            Some(FlowKind::Hotfix)
        } else {
            None
        }
    }

    pub open spec fn prefix_spec(self, c: GitFlowConfig) -> Seq<char> {
        match self {
            FlowKind::Feature => c.feature_prefix@,
            FlowKind::Release => c.release_prefix@,
            FlowKind::Hotfix => c.hotfix_prefix@,
        }
    }

    /// Features and releases start from the development branch, hotfixes
    /// from the production branch.
    pub open spec fn base_spec(self, c: GitFlowConfig) -> Seq<char> {
        match self {
            FlowKind::Hotfix => c.master_branch@,
            _ => c.develop_branch@,
        }
    }

    /// Features merge into the development branch; releases and hotfixes
    /// into the production branch, then the development branch.
    pub open spec fn targets_spec(self, c: GitFlowConfig) -> Seq<Seq<char>> {
        match self {
            FlowKind::Feature => seq![c.develop_branch@],
            _ => seq![c.master_branch@, c.develop_branch@],
        }
    }

    /// Releases and hotfixes are tagged when finished.
    pub open spec fn tags_spec(self) -> bool {
        !(self is Feature)
    }

    /// The full name of the flow branch called `name`.
    pub fn branch_name(&self, config: &GitFlowConfig, name: &str) -> (r: String)
        ensures
            r@ == self.prefix_spec(*config) + name@,
    {
        let mut s = match self {
            FlowKind::Feature => config.feature_prefix.clone(),
            FlowKind::Release => config.release_prefix.clone(),
            FlowKind::Hotfix => config.hotfix_prefix.clone(),
        };
        s.append(name);
        s
    }

    /// The branch a new flow branch starts from: `custom_base` when it is
    /// given and not empty, else the kind's default base.
    pub fn start_base(&self, config: &GitFlowConfig, custom_base: Option<&str>) -> (r: String)
        ensures
            r@ == (match custom_base {
                Some(b) if b@.len() > 0 => b@,
                _ => self.base_spec(*config),
            }),
    {
        if let Some(b) = custom_base {
            if b.unicode_len() > 0 {
                return String::from_str(b);
            }
        }
        match self {
            FlowKind::Hotfix => config.master_branch.clone(),
            _ => config.develop_branch.clone(),
        }
    }

    /// The branches a finished flow branch is merged into, in order.
    pub fn finish_targets(&self, config: &GitFlowConfig) -> (r: Vec<String>)
        ensures
            r@.map_values(|s: String| s@) == self.targets_spec(*config),
    {
        let mut v: Vec<String> = Vec::new();
        match self {
            FlowKind::Feature => {
                v.push(config.develop_branch.clone());
            },
            _ => {
                v.push(config.master_branch.clone());
                v.push(config.develop_branch.clone());
            },
        }
        assert(v@.map_values(|s: String| s@) =~= self.targets_spec(*config));
        v
    }

    /// Whether finishing creates a tag.
    pub fn creates_tag(&self) -> (r: bool)
        ensures
            r == self.tags_spec(),
    {
        !matches!(self, FlowKind::Feature)
    }
}

} // verus!
