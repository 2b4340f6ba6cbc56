//! The public first slice of mind's technical memory: the components,
//! repositories, contracts, crates, storage, work items, claims and
//! witnesses of the first technical memory slice, and the typed relations
//! between them.  Every node is addressed by a stable key; the dataset holds
//! each key once, and every relation joins two of its nodes.
//!
//! Keys, paths and task tokens are held as text here; the wire contract
//! checks their form when a seed node is submitted.

use vstd::prelude::*;

verus! {

/// The node kinds the seed uses, named as the wire contract names them.
#[derive(Debug, Clone, Copy, PartialEq, Eq, Structural)]
pub enum SeedNodeKind {
    Component,
    Repository,
    Crate,
    Contract,
    WorkItem,
    StorageResource,
    SchemaFamily,
    Table,
    SourceArtifact,
    Report,
    TechnicalClaim,
    Witness,
}

/// The relation kinds the seed uses, named as the wire contract names them.
#[derive(Debug, Clone, Copy, PartialEq, Eq, Structural)]
pub enum SeedRelationKind {
    OwnsRepository,
    WireDependency,
    DefinesContract,
    DefinesCrate,
    Implements,
    LocatedAt,
    StorageDependency,
    BuildDependency,
    RuntimeDependency,
    TaskDependency,
    Blocks,
    ClaimsAbout,
    Documents,
    ProvenBy,
    ProvenanceDependency,
}

/// Which surface of a contract a contract node stands for.
#[derive(Debug, Clone, Copy, PartialEq, Eq, Structural)]
pub enum ContractSurfaceText {
    Ordinary,
    Meta,
}

/// How a source locator names its artifact.
#[derive(Debug, Clone, Copy, PartialEq, Eq, Structural)]
pub enum SeedLocatorKind {
    Path,
    Url,
    Task,
    Symbol,
}

/// Where a source artifact or witness lives.
#[derive(Debug)]
pub struct SeedSourceLocator {
    pub kind: SeedLocatorKind,
    pub text: String,
}

/// The body of a seed node, one variant per node kind; keys name other seed
/// nodes.
#[derive(Debug)]
pub enum SeedNodeBody {
    Component { component: String, summary: String },
    Repository { path: String, remote: String },
    Crate { name: String, repository: String },
    Contract { name: String, surface: ContractSurfaceText },
    WorkItem { task: String, title: String },
    StorageResource { owner: String, name: String, path: String },
    SchemaFamily { owner: String, name: String, version: String },
    Table { storage: String, name: String, schema_family: Option<String> },
    SourceArtifact { locator: SeedSourceLocator, summary: String },
    Report { path: String, summary: String },
    TechnicalClaim { claim: String },
    Witness { summary: String, locator: SeedSourceLocator },
}

/// A technical node to submit.
#[derive(Debug)]
pub struct SeedTechnicalNode {
    pub stable_key: String,
    pub kind: SeedNodeKind,
    pub body: SeedNodeBody,
}

/// A technical relation to submit, from `source` to `target` by stable key.
#[derive(Debug)]
pub struct SeedTechnicalRelation {
    pub kind: SeedRelationKind,
    pub source: String,
    pub target: String,
    pub note: String,
}

/// The seed nodes and relations.
#[derive(Debug)]
pub struct TechnicalSeedDataset {
    nodes: Vec<SeedTechnicalNode>,
    relations: Vec<SeedTechnicalRelation>,
}

/// A seed node's body as text: the same variants and fields as
/// `SeedNodeBody`, each text field by its characters.
pub enum SeedNodeBodyText {
    Component { component: Seq<char>, summary: Seq<char> },
    Repository { path: Seq<char>, remote: Seq<char> },
    Crate { name: Seq<char>, repository: Seq<char> },
    Contract { name: Seq<char>, surface: ContractSurfaceText },
    WorkItem { task: Seq<char>, title: Seq<char> },
    StorageResource { owner: Seq<char>, name: Seq<char>, path: Seq<char> },
    SchemaFamily { owner: Seq<char>, name: Seq<char>, version: Seq<char> },
    Table { storage: Seq<char>, name: Seq<char>, schema_family: Option<Seq<char>> },
    SourceArtifact { locator_kind: SeedLocatorKind, locator: Seq<char>, summary: Seq<char> },
    Report { path: Seq<char>, summary: Seq<char> },
    TechnicalClaim { claim: Seq<char> },
    Witness { summary: Seq<char>, locator_kind: SeedLocatorKind, locator: Seq<char> },
}

/// A body by its text.
pub open spec fn body_text(body: SeedNodeBody) -> SeedNodeBodyText {
    match body {
        SeedNodeBody::Component { component, summary } => SeedNodeBodyText::Component {
            component: component@,
            summary: summary@,
        },
        SeedNodeBody::Repository { path, remote } => SeedNodeBodyText::Repository { path: path@, remote: remote@ },
        SeedNodeBody::Crate { name, repository } => SeedNodeBodyText::Crate { name: name@, repository: repository@ },
        SeedNodeBody::Contract { name, surface } => SeedNodeBodyText::Contract { name: name@, surface },
        SeedNodeBody::WorkItem { task, title } => SeedNodeBodyText::WorkItem { task: task@, title: title@ },
        SeedNodeBody::StorageResource { owner, name, path } => SeedNodeBodyText::StorageResource {
            owner: owner@,
            name: name@,
            path: path@,
        },
        SeedNodeBody::SchemaFamily { owner, name, version } => SeedNodeBodyText::SchemaFamily {
            owner: owner@,
            name: name@,
            version: version@,
        },
        SeedNodeBody::Table { storage, name, schema_family } => SeedNodeBodyText::Table {
            storage: storage@,
            name: name@,
            schema_family: match schema_family {
                Some(family) => Some(family@),
                None => None,
            },
        },
        SeedNodeBody::SourceArtifact { locator, summary } => SeedNodeBodyText::SourceArtifact {
            locator_kind: locator.kind,
            locator: locator.text@,
            summary: summary@,
        },
        SeedNodeBody::Report { path, summary } => SeedNodeBodyText::Report { path: path@, summary: summary@ },
        SeedNodeBody::TechnicalClaim { claim } => SeedNodeBodyText::TechnicalClaim { claim: claim@ },
        SeedNodeBody::Witness { summary, locator } => SeedNodeBodyText::Witness {
            summary: summary@,
            locator_kind: locator.kind,
            locator: locator.text@,
        },
    }
}

/// A node by its text: stable key, kind and body.
pub open spec fn node_text(node: SeedTechnicalNode) -> (Seq<char>, SeedNodeKind, SeedNodeBodyText) {
    (node.stable_key@, node.kind, body_text(node.body))
}

/// The nodes of `nodes` by their text, in order.
pub open spec fn node_texts(nodes: Seq<SeedTechnicalNode>) -> Seq<(Seq<char>, SeedNodeKind, SeedNodeBodyText)>
    decreases nodes.len(),
{
    if nodes.len() == 0 {
        Seq::empty()
    } else {
        node_texts(nodes.drop_last()).push(node_text(nodes.last()))
    }
}

/// A relation by its text: kind, source key, target key and note.
pub open spec fn relation_text(relation: SeedTechnicalRelation) -> (SeedRelationKind, Seq<char>, Seq<char>, Seq<char>) {
    (relation.kind, relation.source@, relation.target@, relation.note@)
}

/// The relations of `relations` by their text, in order.
pub open spec fn relation_texts(relations: Seq<SeedTechnicalRelation>) -> Seq<
    (SeedRelationKind, Seq<char>, Seq<char>, Seq<char>),
>
    decreases relations.len(),
{
    if relations.len() == 0 {
        Seq::empty()
    } else {
        relation_texts(relations.drop_last()).push(relation_text(relations.last()))
    }
}

/// The seed's nodes, by their text, in order.
pub open spec fn seed_node_texts() -> Seq<(Seq<char>, SeedNodeKind, SeedNodeBodyText)> {
    Seq::empty()
        .push(("component:mind"@, SeedNodeKind::Component, SeedNodeBodyText::Component { component: "mind"@, summary: "Persona central mind daemon"@ }))
        .push(("repo:mind"@, SeedNodeKind::Repository, SeedNodeBodyText::Repository { path: "/git/github.com/LiGoldragon/mind"@, remote: "https://github.com/LiGoldragon/mind"@ }))
        .push(("repo:signal-mind"@, SeedNodeKind::Repository, SeedNodeBodyText::Repository { path: "/git/github.com/LiGoldragon/signal-mind"@, remote: "https://github.com/LiGoldragon/signal-mind"@ }))
        .push(("repo:meta-signal-mind"@, SeedNodeKind::Repository, SeedNodeBodyText::Repository { path: "/git/github.com/LiGoldragon/meta-signal-mind"@, remote: "https://github.com/LiGoldragon/meta-signal-mind"@ }))
        .push(("repo:sema-engine"@, SeedNodeKind::Repository, SeedNodeBodyText::Repository { path: "/git/github.com/LiGoldragon/sema-engine"@, remote: "https://github.com/LiGoldragon/sema-engine"@ }))
        .push(("contract:signal-mind:ordinary"@, SeedNodeKind::Contract, SeedNodeBodyText::Contract { name: "signal-mind ordinary contract"@, surface: ContractSurfaceText::Ordinary }))
        .push(("contract:meta-signal-mind:meta-policy"@, SeedNodeKind::Contract, SeedNodeBodyText::Contract { name: "meta-signal-mind meta policy contract"@, surface: ContractSurfaceText::Meta }))
        .push(("crate:mind"@, SeedNodeKind::Crate, SeedNodeBodyText::Crate { name: "mind"@, repository: "repo:mind"@ }))
        .push(("crate:signal-mind"@, SeedNodeKind::Crate, SeedNodeBodyText::Crate { name: "signal-mind"@, repository: "repo:signal-mind"@ }))
        .push(("crate:sema-engine"@, SeedNodeKind::Crate, SeedNodeBodyText::Crate { name: "sema-engine"@, repository: "repo:sema-engine"@ }))
        .push(("storage:mind:mind.sema"@, SeedNodeKind::StorageResource, SeedNodeBodyText::StorageResource { owner: "component:mind"@, name: "mind.sema"@, path: "/home/li/.local/state/mind/mind.sema"@ }))
        .push(("schema:mind:technical-v2"@, SeedNodeKind::SchemaFamily, SeedNodeBodyText::SchemaFamily { owner: "component:mind"@, name: "technical-v2"@, version: "2"@ }))
        .push(("table:mind:technical_nodes"@, SeedNodeKind::Table, SeedNodeBodyText::Table { storage: "storage:mind:mind.sema"@, name: "technical_nodes"@, schema_family: Some("schema:mind:technical-v2"@) }))
        .push(("table:mind:technical_relations"@, SeedNodeKind::Table, SeedNodeBodyText::Table { storage: "storage:mind:mind.sema"@, name: "technical_relations"@, schema_family: Some("schema:mind:technical-v2"@) }))
        .push(("artifact:signal-mind-src-graph.rs"@, SeedNodeKind::SourceArtifact, SeedNodeBodyText::SourceArtifact { locator_kind: SeedLocatorKind::Path, locator: "/git/github.com/LiGoldragon/signal-mind/src/graph.rs"@, summary: "signal-mind graph records and subscription event shapes"@ }))
        .push(("artifact:signal-mind-src-lib.rs"@, SeedNodeKind::SourceArtifact, SeedNodeBodyText::SourceArtifact { locator_kind: SeedLocatorKind::Path, locator: "/git/github.com/LiGoldragon/signal-mind/src/lib.rs"@, summary: "signal-mind channel declaration and contract-local heads"@ }))
        .push(("artifact:mind-src-tables.rs"@, SeedNodeKind::SourceArtifact, SeedNodeBodyText::SourceArtifact { locator_kind: SeedLocatorKind::Path, locator: "/git/github.com/LiGoldragon/mind/src/tables.rs"@, summary: "mind technical node and relation storage families"@ }))
        .push(("artifact:mind-src-actors-dispatch.rs"@, SeedNodeKind::SourceArtifact, SeedNodeBodyText::SourceArtifact { locator_kind: SeedLocatorKind::Path, locator: "/git/github.com/LiGoldragon/mind/src/actors/dispatch.rs"@, summary: "mind dispatch routing for technical memory operations"@ }))
        .push(("artifact:sema-engine-src-engine.rs"@, SeedNodeKind::SourceArtifact, SeedNodeBodyText::SourceArtifact { locator_kind: SeedLocatorKind::Path, locator: "/git/github.com/LiGoldragon/sema-engine/src/engine.rs"@, summary: "sema-engine durable engine implementation"@ }))
        .push(("report:system-operator-218-signal-mind-contract-modernization-stop-point-2026-06-13"@, SeedNodeKind::Report, SeedNodeBodyText::Report { path: "/home/li/primary/reports/system-operator/218-signal-mind-contract-modernization-stop-point-2026-06-13.md"@, summary: "signal-mind contract modernization stop point and schema gap"@ }))
        .push(("report:system-operator-210-sema-versioned-state-engine-and-mind-implementation-2026-06-11"@, SeedNodeKind::Report, SeedNodeBodyText::Report { path: "/home/li/primary/reports/system-operator/210-sema-versioned-state-engine-and-mind-implementation-2026-06-11.md"@, summary: "sema-engine versioned state substrate and mind integration provenance"@ }))
        .push(("task:primary-irfi"@, SeedNodeKind::WorkItem, SeedNodeBodyText::WorkItem { task: "primary-irfi"@, title: "Mind typed technical dependency memory production slice"@ }))
        .push(("task:primary-irfi.1"@, SeedNodeKind::WorkItem, SeedNodeBodyText::WorkItem { task: "primary-irfi.1"@, title: "Add signal-mind technical contract types and round-trip tests"@ }))
        .push(("task:primary-irfi.2"@, SeedNodeKind::WorkItem, SeedNodeBodyText::WorkItem { task: "primary-irfi.2"@, title: "Update mind to consume the new signal-mind contract"@ }))
        .push(("task:primary-irfi.3"@, SeedNodeKind::WorkItem, SeedNodeBodyText::WorkItem { task: "primary-irfi.3"@, title: "Add MindTables schema v9 technical storage families"@ }))
        .push(("task:primary-irfi.4"@, SeedNodeKind::WorkItem, SeedNodeBodyText::WorkItem { task: "primary-irfi.4"@, title: "Implement Mind technical append and query handling"@ }))
        .push(("task:primary-irfi.5"@, SeedNodeKind::WorkItem, SeedNodeBodyText::WorkItem { task: "primary-irfi.5"@, title: "Extend Mind subscriptions and events for technical records"@ }))
        .push(("task:primary-irfi.6"@, SeedNodeKind::WorkItem, SeedNodeBodyText::WorkItem { task: "primary-irfi.6"@, title: "Add public technical seed dataset and end-to-end witnesses"@ }))
        .push(("task:primary-irfi.7"@, SeedNodeKind::WorkItem, SeedNodeBodyText::WorkItem { task: "primary-irfi.7"@, title: "Bump versions and land Nix/check witnesses for Mind technical memory"@ }))
        .push(("artifact:signal-mind-commit-5a5a4fb4"@, SeedNodeKind::SourceArtifact, SeedNodeBodyText::SourceArtifact { locator_kind: SeedLocatorKind::Url, locator: "https://github.com/LiGoldragon/signal-mind/commit/5a5a4fb43e92da301e018853330eb08288e7b6ac"@, summary: "signal-mind 0.2.0 technical memory contract commit"@ }))
        .push(("artifact:mind-commit-c546b29f"@, SeedNodeKind::SourceArtifact, SeedNodeBodyText::SourceArtifact { locator_kind: SeedLocatorKind::Url, locator: "https://github.com/LiGoldragon/mind/commit/c546b29f66b0edf6820217e4610ed872fb00d3f6"@, summary: "mind consumes signal-mind 0.2.0 technical contract commit"@ }))
        .push(("artifact:mind-commit-ad12bfc4"@, SeedNodeKind::SourceArtifact, SeedNodeBodyText::SourceArtifact { locator_kind: SeedLocatorKind::Url, locator: "https://github.com/LiGoldragon/mind/commit/ad12bfc487f7142390922a2d2bee234c3f982f6d"@, summary: "MindTables schema v9 technical storage family commit"@ }))
        .push(("artifact:mind-commit-4c705095"@, SeedNodeKind::SourceArtifact, SeedNodeBodyText::SourceArtifact { locator_kind: SeedLocatorKind::Url, locator: "https://github.com/LiGoldragon/mind/commit/4c705095e7f1c96ca02478f3053f538c402a5a03"@, summary: "mind 0.5.0 technical append and query commit"@ }))
        .push(("artifact:mind-commit-9fd00cf3"@, SeedNodeKind::SourceArtifact, SeedNodeBodyText::SourceArtifact { locator_kind: SeedLocatorKind::Url, locator: "https://github.com/LiGoldragon/mind/commit/9fd00cf385d4317cdf3df582fdd3a0334e36984b"@, summary: "technical subscription event delivery commit"@ }))
        .push(("artifact:mind-commit-888ddd51"@, SeedNodeKind::SourceArtifact, SeedNodeBodyText::SourceArtifact { locator_kind: SeedLocatorKind::Url, locator: "https://github.com/LiGoldragon/mind/commit/888ddd518f90ec705df2ffff0d4af92a62e87279"@, summary: "public technical seed witness commit"@ }))
        .push(("artifact:beads-primary-irfi-public-epic"@, SeedNodeKind::SourceArtifact, SeedNodeBodyText::SourceArtifact { locator_kind: SeedLocatorKind::Task, locator: "primary-irfi"@, summary: "public BEADS epic that completed the first Mind technical memory slice"@ }))
        .push(("claim:signal-mind-public-wire-vocabulary"@, SeedNodeKind::TechnicalClaim, SeedNodeBodyText::TechnicalClaim { claim: "signal-mind owns public Mind wire vocabulary"@ }))
        .push(("claim:mind-durable-mind-sema-through-sema-engine"@, SeedNodeKind::TechnicalClaim, SeedNodeBodyText::TechnicalClaim { claim: "mind owns durable mind.sema through sema-engine"@ }))
        .push(("claim:first-technical-memory-slice-explicit-technical-nodes-relations"@, SeedNodeKind::TechnicalClaim, SeedNodeBodyText::TechnicalClaim { claim: "first technical memory slice adds explicit technical nodes and relations, not generic Thought conventions"@ }))
        .push(("claim:primary-irfi-completed-first-technical-memory-slice"@, SeedNodeKind::TechnicalClaim, SeedNodeBodyText::TechnicalClaim { claim: "primary-irfi completed the first public Mind typed technical dependency memory production slice"@ }))
        .push(("claim:mind-technical-memory-nix-witnesses-passed-2026-06-27"@, SeedNodeKind::TechnicalClaim, SeedNodeBodyText::TechnicalClaim { claim: "Mind technical memory Nix witnesses passed on 2026-06-27"@ }))
        .push(("witness:persistence"@, SeedNodeKind::Witness, SeedNodeBodyText::Witness { summary: "technical memory persistence survives daemon restart"@, locator_kind: SeedLocatorKind::Symbol, locator: "Symbol:mind_typed_technical_seed_survives_daemon_restart_and_queries_back"@ }))
        .push(("witness:wire-round-trip"@, SeedNodeKind::Witness, SeedNodeBodyText::Witness { summary: "technical seed submissions cross the daemon Signal-frame path"@, locator_kind: SeedLocatorKind::Symbol, locator: "Symbol:mind_typed_technical_seed_survives_daemon_restart_and_queries_back"@ }))
        .push(("witness:relation-round-trip"@, SeedNodeKind::Witness, SeedNodeBodyText::Witness { summary: "technical relations round trip with committed endpoint identifiers"@, locator_kind: SeedLocatorKind::Symbol, locator: "Symbol:mind_typed_technical_seed_survives_daemon_restart_and_queries_back"@ }))
        .push(("witness:contract-local-heads"@, SeedNodeKind::Witness, SeedNodeBodyText::Witness { summary: "signal-mind contract-local heads cover technical operations"@, locator_kind: SeedLocatorKind::Symbol, locator: "Symbol:mind_request_variants_declare_contract_local_operation_heads"@ }))
        .push(("witness:technical-subscription-delivery"@, SeedNodeKind::Witness, SeedNodeBodyText::Witness { summary: "technical node and relation subscriptions deliver post-commit deltas"@, locator_kind: SeedLocatorKind::Symbol, locator: "Symbol:public_technical_seed_delivers_subscription_deltas"@ }))
        .push(("witness:mind-nix-flake-check-2026-06-27"@, SeedNodeKind::Witness, SeedNodeBodyText::Witness { summary: "mind nix flake check -L passed on 2026-06-27 with technical storage, append/query, subscription, seed, daemon, CLI, fmt, doc, clippy, and actor-truth checks"@, locator_kind: SeedLocatorKind::Symbol, locator: "Nix:mind:nix-flake-check-L:2026-06-27"@ }))
        .push(("witness:signal-mind-nix-flake-check-2026-06-27"@, SeedNodeKind::Witness, SeedNodeBodyText::Witness { summary: "signal-mind nix flake check -L passed on 2026-06-27 with round-trip, validation, docs, fmt, and clippy checks"@, locator_kind: SeedLocatorKind::Symbol, locator: "Nix:signal-mind:nix-flake-check-L:2026-06-27"@ }))
}

/// The seed's relations, by their text, in order.
pub open spec fn seed_relation_texts() -> Seq<(SeedRelationKind, Seq<char>, Seq<char>, Seq<char>)> {
    Seq::empty()
        .push((SeedRelationKind::OwnsRepository, "component:mind"@, "repo:mind"@, "mind owns its public implementation repository"@))
        .push((SeedRelationKind::WireDependency, "component:mind"@, "contract:signal-mind:ordinary"@, "mind consumes the ordinary signal-mind contract"@))
        .push((SeedRelationKind::WireDependency, "component:mind"@, "contract:meta-signal-mind:meta-policy"@, "mind consumes the owner-side meta policy contract"@))
        .push((SeedRelationKind::StorageDependency, "component:mind"@, "storage:mind:mind.sema"@, "mind owns durable mind.sema through sema-engine"@))
        .push((SeedRelationKind::BuildDependency, "component:mind"@, "crate:sema-engine"@, "mind builds against sema-engine"@))
        .push((SeedRelationKind::RuntimeDependency, "component:mind"@, "crate:sema-engine"@, "mind uses sema-engine at runtime"@))
        .push((SeedRelationKind::StorageDependency, "storage:mind:mind.sema"@, "schema:mind:technical-v2"@, "mind.sema stores the technical vocabulary v2 schema family"@))
        .push((SeedRelationKind::StorageDependency, "schema:mind:technical-v2"@, "table:mind:technical_nodes"@, "technical vocabulary v2 includes the technical_nodes table"@))
        .push((SeedRelationKind::StorageDependency, "schema:mind:technical-v2"@, "table:mind:technical_relations"@, "technical vocabulary v2 includes the technical_relations table"@))
        .push((SeedRelationKind::DefinesContract, "repo:signal-mind"@, "contract:signal-mind:ordinary"@, "signal-mind defines the ordinary Mind channel"@))
        .push((SeedRelationKind::DefinesContract, "repo:meta-signal-mind"@, "contract:meta-signal-mind:meta-policy"@, "meta-signal-mind defines the meta Mind policy channel"@))
        .push((SeedRelationKind::DefinesCrate, "repo:sema-engine"@, "crate:sema-engine"@, "sema-engine repository defines the sema-engine crate"@))
        .push((SeedRelationKind::Documents, "report:system-operator-218-signal-mind-contract-modernization-stop-point-2026-06-13"@, "contract:signal-mind:ordinary"@, "report 218 documents the signal-mind schema gap and modernization stop point"@))
        .push((SeedRelationKind::Documents, "report:system-operator-210-sema-versioned-state-engine-and-mind-implementation-2026-06-11"@, "crate:sema-engine"@, "report 210 documents sema-engine versioned state provenance used by mind"@))
        .push((SeedRelationKind::ClaimsAbout, "claim:signal-mind-public-wire-vocabulary"@, "contract:signal-mind:ordinary"@, "the claim is about the ordinary Mind wire vocabulary"@))
        .push((SeedRelationKind::ClaimsAbout, "claim:mind-durable-mind-sema-through-sema-engine"@, "crate:sema-engine"@, "the durable mind.sema claim is about the sema-engine crate"@))
        .push((SeedRelationKind::ClaimsAbout, "claim:first-technical-memory-slice-explicit-technical-nodes-relations"@, "component:mind"@, "the first technical memory slice is a mind production slice"@))
        .push((SeedRelationKind::ClaimsAbout, "claim:primary-irfi-completed-first-technical-memory-slice"@, "task:primary-irfi"@, "the completed-slice claim is about the primary-irfi epic"@))
        .push((SeedRelationKind::ClaimsAbout, "claim:mind-technical-memory-nix-witnesses-passed-2026-06-27"@, "task:primary-irfi.7"@, "the Nix witness claim is about final version/check reconciliation"@))
        .push((SeedRelationKind::LocatedAt, "contract:signal-mind:ordinary"@, "artifact:signal-mind-src-lib.rs"@, "the ordinary Mind channel is declared in signal-mind/src/lib.rs"@))
        .push((SeedRelationKind::LocatedAt, "contract:signal-mind:ordinary"@, "artifact:signal-mind-src-graph.rs"@, "the graph event vocabulary is implemented in signal-mind/src/graph.rs"@))
        .push((SeedRelationKind::LocatedAt, "claim:mind-durable-mind-sema-through-sema-engine"@, "artifact:mind-src-tables.rs"@, "mind/src/tables.rs owns the technical Sema families"@))
        .push((SeedRelationKind::LocatedAt, "claim:first-technical-memory-slice-explicit-technical-nodes-relations"@, "artifact:mind-src-tables.rs"@, "technical node and relation records are durable table families"@))
        .push((SeedRelationKind::LocatedAt, "claim:first-technical-memory-slice-explicit-technical-nodes-relations"@, "artifact:mind-src-actors-dispatch.rs"@, "technical requests route through mind dispatch"@))
        .push((SeedRelationKind::LocatedAt, "crate:sema-engine"@, "artifact:sema-engine-src-engine.rs"@, "sema-engine crate behavior is located in sema-engine/src/engine.rs"@))
        .push((SeedRelationKind::LocatedAt, "task:primary-irfi"@, "artifact:beads-primary-irfi-public-epic"@, "the primary-irfi epic source is the public BEADS task"@))
        .push((SeedRelationKind::Implements, "artifact:signal-mind-src-lib.rs"@, "contract:signal-mind:ordinary"@, "signal-mind/src/lib.rs implements the ordinary Mind contract declaration"@))
        .push((SeedRelationKind::Implements, "artifact:mind-src-tables.rs"@, "claim:first-technical-memory-slice-explicit-technical-nodes-relations"@, "mind/src/tables.rs implements the first technical memory table families"@))
        .push((SeedRelationKind::Implements, "artifact:mind-src-actors-dispatch.rs"@, "claim:first-technical-memory-slice-explicit-technical-nodes-relations"@, "mind dispatch implements technical memory request routing"@))
        .push((SeedRelationKind::Implements, "artifact:sema-engine-src-engine.rs"@, "claim:mind-durable-mind-sema-through-sema-engine"@, "sema-engine implements the durable engine mind uses"@))
        .push((SeedRelationKind::Implements, "task:primary-irfi.1"@, "contract:signal-mind:ordinary"@, "primary-irfi.1 implemented the signal-mind technical contract surface"@))
        .push((SeedRelationKind::Implements, "task:primary-irfi.2"@, "claim:signal-mind-public-wire-vocabulary"@, "primary-irfi.2 made mind consume the new technical wire vocabulary"@))
        .push((SeedRelationKind::Implements, "task:primary-irfi.3"@, "claim:mind-durable-mind-sema-through-sema-engine"@, "primary-irfi.3 added the technical storage families under mind.sema"@))
        .push((SeedRelationKind::Implements, "task:primary-irfi.4"@, "claim:first-technical-memory-slice-explicit-technical-nodes-relations"@, "primary-irfi.4 implemented technical append and query handling"@))
        .push((SeedRelationKind::Implements, "task:primary-irfi.5"@, "claim:first-technical-memory-slice-explicit-technical-nodes-relations"@, "primary-irfi.5 implemented technical subscription delivery"@))
        .push((SeedRelationKind::Implements, "task:primary-irfi.6"@, "claim:first-technical-memory-slice-explicit-technical-nodes-relations"@, "primary-irfi.6 added the public seed dataset and witnesses"@))
        .push((SeedRelationKind::Implements, "task:primary-irfi.7"@, "claim:mind-technical-memory-nix-witnesses-passed-2026-06-27"@, "primary-irfi.7 landed final version and Nix/check witness evidence"@))
        .push((SeedRelationKind::TaskDependency, "task:primary-irfi"@, "task:primary-irfi.1"@, "the primary-irfi epic completion depended on child task primary-irfi.1"@))
        .push((SeedRelationKind::TaskDependency, "task:primary-irfi"@, "task:primary-irfi.2"@, "the primary-irfi epic completion depended on child task primary-irfi.2"@))
        .push((SeedRelationKind::TaskDependency, "task:primary-irfi"@, "task:primary-irfi.3"@, "the primary-irfi epic completion depended on child task primary-irfi.3"@))
        .push((SeedRelationKind::TaskDependency, "task:primary-irfi"@, "task:primary-irfi.4"@, "the primary-irfi epic completion depended on child task primary-irfi.4"@))
        .push((SeedRelationKind::TaskDependency, "task:primary-irfi"@, "task:primary-irfi.5"@, "the primary-irfi epic completion depended on child task primary-irfi.5"@))
        .push((SeedRelationKind::TaskDependency, "task:primary-irfi"@, "task:primary-irfi.6"@, "the primary-irfi epic completion depended on child task primary-irfi.6"@))
        .push((SeedRelationKind::TaskDependency, "task:primary-irfi"@, "task:primary-irfi.7"@, "the primary-irfi epic completion depended on child task primary-irfi.7"@))
        .push((SeedRelationKind::TaskDependency, "task:primary-irfi.1"@, "task:primary-irfi.2"@, "contract work unblocked mind consumption"@))
        .push((SeedRelationKind::TaskDependency, "task:primary-irfi.2"@, "task:primary-irfi.3"@, "contract consumption unblocked storage family work"@))
        .push((SeedRelationKind::TaskDependency, "task:primary-irfi.3"@, "task:primary-irfi.4"@, "storage families unblocked append and query handling"@))
        .push((SeedRelationKind::TaskDependency, "task:primary-irfi.4"@, "task:primary-irfi.5"@, "append handling unblocked technical subscription delivery"@))
        .push((SeedRelationKind::TaskDependency, "task:primary-irfi.4"@, "task:primary-irfi.6"@, "append and query handling unblocked seed witnesses"@))
        .push((SeedRelationKind::TaskDependency, "task:primary-irfi.5"@, "task:primary-irfi.6"@, "subscription delivery unblocked seed subscription witnesses"@))
        .push((SeedRelationKind::TaskDependency, "task:primary-irfi.6"@, "task:primary-irfi.7"@, "seed witnesses unblocked final version/check reconciliation"@))
        .push((SeedRelationKind::Blocks, "task:primary-irfi.1"@, "task:primary-irfi.2"@, "primary-irfi.1 blocked primary-irfi.2"@))
        .push((SeedRelationKind::Blocks, "task:primary-irfi.6"@, "task:primary-irfi.7"@, "primary-irfi.6 blocked final version/check reconciliation"@))
        .push((SeedRelationKind::ProvenanceDependency, "claim:primary-irfi-completed-first-technical-memory-slice"@, "task:primary-irfi"@, "the completed first-slice claim is grounded in the public BEADS epic"@))
        .push((SeedRelationKind::ProvenanceDependency, "claim:primary-irfi-completed-first-technical-memory-slice"@, "artifact:beads-primary-irfi-public-epic"@, "the public BEADS epic is the source record for the completed slice"@))
        .push((SeedRelationKind::ProvenanceDependency, "task:primary-irfi.1"@, "artifact:signal-mind-commit-5a5a4fb4"@, "primary-irfi.1 shipped in signal-mind commit 5a5a4fb4"@))
        .push((SeedRelationKind::ProvenanceDependency, "task:primary-irfi.2"@, "artifact:mind-commit-c546b29f"@, "primary-irfi.2 shipped in mind commit c546b29f"@))
        .push((SeedRelationKind::ProvenanceDependency, "task:primary-irfi.3"@, "artifact:mind-commit-ad12bfc4"@, "primary-irfi.3 shipped in mind commit ad12bfc4"@))
        .push((SeedRelationKind::ProvenanceDependency, "task:primary-irfi.4"@, "artifact:mind-commit-4c705095"@, "primary-irfi.4 shipped in mind commit 4c705095"@))
        .push((SeedRelationKind::ProvenanceDependency, "task:primary-irfi.5"@, "artifact:mind-commit-9fd00cf3"@, "primary-irfi.5 shipped in mind commit 9fd00cf3"@))
        .push((SeedRelationKind::ProvenanceDependency, "task:primary-irfi.6"@, "artifact:mind-commit-888ddd51"@, "primary-irfi.6 shipped in mind commit 888ddd51"@))
        .push((SeedRelationKind::ProvenanceDependency, "task:primary-irfi.7"@, "witness:mind-nix-flake-check-2026-06-27"@, "primary-irfi.7 recorded the passing mind Nix flake check"@))
        .push((SeedRelationKind::ProvenanceDependency, "task:primary-irfi.7"@, "witness:signal-mind-nix-flake-check-2026-06-27"@, "primary-irfi.7 recorded the passing signal-mind Nix flake check"@))
        .push((SeedRelationKind::ProvenBy, "claim:primary-irfi-completed-first-technical-memory-slice"@, "witness:mind-nix-flake-check-2026-06-27"@, "mind Nix checks prove the first technical memory slice"@))
        .push((SeedRelationKind::ProvenBy, "claim:primary-irfi-completed-first-technical-memory-slice"@, "witness:signal-mind-nix-flake-check-2026-06-27"@, "signal-mind Nix checks prove the contract side of the first technical memory slice"@))
        .push((SeedRelationKind::ProvenBy, "claim:mind-technical-memory-nix-witnesses-passed-2026-06-27"@, "witness:mind-nix-flake-check-2026-06-27"@, "the mind Nix witness proves the final mind checks passed"@))
        .push((SeedRelationKind::ProvenBy, "claim:mind-technical-memory-nix-witnesses-passed-2026-06-27"@, "witness:signal-mind-nix-flake-check-2026-06-27"@, "the signal-mind Nix witness proves the final contract checks passed"@))
        .push((SeedRelationKind::ProvenBy, "claim:mind-durable-mind-sema-through-sema-engine"@, "witness:persistence"@, "persistence witness proves durable technical memory"@))
        .push((SeedRelationKind::ProvenBy, "claim:mind-durable-mind-sema-through-sema-engine"@, "witness:wire-round-trip"@, "wire witness proves daemon path submission"@))
        .push((SeedRelationKind::ProvenBy, "claim:first-technical-memory-slice-explicit-technical-nodes-relations"@, "witness:relation-round-trip"@, "relation witness proves explicit technical relations round trip"@))
        .push((SeedRelationKind::ProvenBy, "claim:signal-mind-public-wire-vocabulary"@, "witness:contract-local-heads"@, "contract-local heads prove public operation vocabulary"@))
        .push((SeedRelationKind::ProvenBy, "claim:first-technical-memory-slice-explicit-technical-nodes-relations"@, "witness:technical-subscription-delivery"@, "subscription witness proves technical post-commit deltas"@))
}

/// Whether some node of `nodes` has the stable key `key`.
pub open spec fn has_node_key(nodes: Seq<SeedTechnicalNode>, key: Seq<char>) -> bool {
    exists|i: int| 0 <= i < nodes.len() && #[trigger] nodes[i].stable_key@ == key
}

/// No two nodes share a stable key.
pub open spec fn node_keys_distinct(nodes: Seq<SeedTechnicalNode>) -> bool {
    forall|i: int, j: int|
        0 <= i < j < nodes.len() ==> #[trigger] nodes[i].stable_key@ != #[trigger] nodes[j].stable_key@
}

/// Every relation joins two nodes of `nodes`.
pub open spec fn relations_join_nodes(nodes: Seq<SeedTechnicalNode>, relations: Seq<SeedTechnicalRelation>) -> bool {
    forall|i: int|
        0 <= i < relations.len() ==> has_node_key(nodes, #[trigger] relations[i].source@) && has_node_key(
            nodes,
            relations[i].target@,
        )
}

impl SeedSourceLocator {
    fn new(kind: SeedLocatorKind, text: &str) -> (locator: Self)
        ensures
            locator.kind == kind,
            locator.text@ == text@,
    {
        SeedSourceLocator { kind, text: String::from_str(text) }
    }
}

impl SeedTechnicalNode {
    fn component(stable_key: &str, component: &str, summary: &str) -> (node: Self)
        ensures
            node_text(node) == (stable_key@, SeedNodeKind::Component, SeedNodeBodyText::Component { component: component@, summary: summary@ }),
            node.stable_key@ == stable_key@,
            node.kind == SeedNodeKind::Component,
    {
        SeedTechnicalNode {
            stable_key: String::from_str(stable_key),
            kind: SeedNodeKind::Component,
            body: SeedNodeBody::Component { component: String::from_str(component), summary: String::from_str(summary) },
        }
    }

    fn repository(stable_key: &str, path: &str, remote: &str) -> (node: Self)
        ensures
            node_text(node) == (stable_key@, SeedNodeKind::Repository, SeedNodeBodyText::Repository { path: path@, remote: remote@ }),
            node.stable_key@ == stable_key@,
            node.kind == SeedNodeKind::Repository,
    {
        SeedTechnicalNode {
            stable_key: String::from_str(stable_key),
            kind: SeedNodeKind::Repository,
            body: SeedNodeBody::Repository { path: String::from_str(path), remote: String::from_str(remote) },
        }
    }

    fn crate_node(stable_key: &str, name: &str, repository: &str) -> (node: Self)
        ensures
            node_text(node) == (stable_key@, SeedNodeKind::Crate, SeedNodeBodyText::Crate { name: name@, repository: repository@ }),
            node.stable_key@ == stable_key@,
            node.kind == SeedNodeKind::Crate,
    {
        SeedTechnicalNode {
            stable_key: String::from_str(stable_key),
            kind: SeedNodeKind::Crate,
            body: SeedNodeBody::Crate { name: String::from_str(name), repository: String::from_str(repository) },
        }
    }

    fn contract(stable_key: &str, name: &str, surface: ContractSurfaceText) -> (node: Self)
        ensures
            node_text(node) == (stable_key@, SeedNodeKind::Contract, SeedNodeBodyText::Contract { name: name@, surface }),
            node.stable_key@ == stable_key@,
            node.kind == SeedNodeKind::Contract,
    {
        SeedTechnicalNode {
            stable_key: String::from_str(stable_key),
            kind: SeedNodeKind::Contract,
            body: SeedNodeBody::Contract { name: String::from_str(name), surface },
        }
    }

    fn work_item(stable_key: &str, task: &str, title: &str) -> (node: Self)
        ensures
            node_text(node) == (stable_key@, SeedNodeKind::WorkItem, SeedNodeBodyText::WorkItem { task: task@, title: title@ }),
            node.stable_key@ == stable_key@,
            node.kind == SeedNodeKind::WorkItem,
    {
        SeedTechnicalNode {
            stable_key: String::from_str(stable_key),
            kind: SeedNodeKind::WorkItem,
            body: SeedNodeBody::WorkItem { task: String::from_str(task), title: String::from_str(title) },
        }
    }

    fn storage_resource(stable_key: &str, owner: &str, name: &str, path: &str) -> (node: Self)
        ensures
            node_text(node) == (stable_key@, SeedNodeKind::StorageResource, SeedNodeBodyText::StorageResource { owner: owner@, name: name@, path: path@ }),
            node.stable_key@ == stable_key@,
            node.kind == SeedNodeKind::StorageResource,
    {
        SeedTechnicalNode {
            stable_key: String::from_str(stable_key),
            kind: SeedNodeKind::StorageResource,
            body: SeedNodeBody::StorageResource {
                owner: String::from_str(owner),
                name: String::from_str(name),
                path: String::from_str(path),
            },
        }
    }

    /// A schema family at version `2`.
    fn schema_family(stable_key: &str, owner: &str, name: &str) -> (node: Self)
        ensures
            node_text(node) == (stable_key@, SeedNodeKind::SchemaFamily, SeedNodeBodyText::SchemaFamily { owner: owner@, name: name@, version: "2"@ }),
            node.stable_key@ == stable_key@,
            node.kind == SeedNodeKind::SchemaFamily,
    {
        SeedTechnicalNode {
            stable_key: String::from_str(stable_key),
            kind: SeedNodeKind::SchemaFamily,
            body: SeedNodeBody::SchemaFamily {
                owner: String::from_str(owner),
                name: String::from_str(name),
                version: String::from_str("2"),
            },
        }
    }

    fn table(stable_key: &str, storage: &str, name: &str, schema_family: Option<&str>) -> (node: Self)
        ensures
            node_text(node) == (stable_key@, SeedNodeKind::Table, SeedNodeBodyText::Table {
                storage: storage@,
                name: name@,
                schema_family: match schema_family {
                    Some(family) => Some(family@),
                    None => None,
                },
            }),
            node.stable_key@ == stable_key@,
            node.kind == SeedNodeKind::Table,
    {
        SeedTechnicalNode {
            stable_key: String::from_str(stable_key),
            kind: SeedNodeKind::Table,
            body: SeedNodeBody::Table {
                storage: String::from_str(storage),
                name: String::from_str(name),
                schema_family: match schema_family {
                    Some(family) => Some(String::from_str(family)),
                    None => None,
                },
            },
        }
    }

    fn source_artifact(stable_key: &str, path: &str, summary: &str) -> (node: Self)
        ensures
            node_text(node) == (stable_key@, SeedNodeKind::SourceArtifact, SeedNodeBodyText::SourceArtifact { locator_kind: SeedLocatorKind::Path, locator: path@, summary: summary@ }),
            node.stable_key@ == stable_key@,
            node.kind == SeedNodeKind::SourceArtifact,
    {
        Self::source_artifact_with_locator(stable_key, SeedLocatorKind::Path, path, summary)
    }

    fn source_artifact_with_locator(stable_key: &str, locator: SeedLocatorKind, text: &str, summary: &str) -> (node: Self)
        ensures
            node_text(node) == (stable_key@, SeedNodeKind::SourceArtifact, SeedNodeBodyText::SourceArtifact { locator_kind: locator, locator: text@, summary: summary@ }),
            node.stable_key@ == stable_key@,
            node.kind == SeedNodeKind::SourceArtifact,
    {
        SeedTechnicalNode {
            stable_key: String::from_str(stable_key),
            kind: SeedNodeKind::SourceArtifact,
            body: SeedNodeBody::SourceArtifact {
                locator: SeedSourceLocator::new(locator, text),
                summary: String::from_str(summary),
            },
        }
    }

    fn report(stable_key: &str, path: &str, summary: &str) -> (node: Self)
        ensures
            node_text(node) == (stable_key@, SeedNodeKind::Report, SeedNodeBodyText::Report { path: path@, summary: summary@ }),
            node.stable_key@ == stable_key@,
            node.kind == SeedNodeKind::Report,
    {
        SeedTechnicalNode {
            stable_key: String::from_str(stable_key),
            kind: SeedNodeKind::Report,
            body: SeedNodeBody::Report { path: String::from_str(path), summary: String::from_str(summary) },
        }
    }

    fn claim(stable_key: &str, claim: &str) -> (node: Self)
        ensures
            node_text(node) == (stable_key@, SeedNodeKind::TechnicalClaim, SeedNodeBodyText::TechnicalClaim { claim: claim@ }),
            node.stable_key@ == stable_key@,
            node.kind == SeedNodeKind::TechnicalClaim,
    {
        SeedTechnicalNode {
            stable_key: String::from_str(stable_key),
            kind: SeedNodeKind::TechnicalClaim,
            body: SeedNodeBody::TechnicalClaim { claim: String::from_str(claim) },
        }
    }

    /// A witness, located by the symbol of the check that proves it.
    fn witness(stable_key: &str, summary: &str, symbol: &str) -> (node: Self)
        ensures
            node_text(node) == (stable_key@, SeedNodeKind::Witness, SeedNodeBodyText::Witness { summary: summary@, locator_kind: SeedLocatorKind::Symbol, locator: symbol@ }),
            node.stable_key@ == stable_key@,
            node.kind == SeedNodeKind::Witness,
    {
        SeedTechnicalNode {
            stable_key: String::from_str(stable_key),
            kind: SeedNodeKind::Witness,
            body: SeedNodeBody::Witness {
                summary: String::from_str(summary),
                locator: SeedSourceLocator::new(SeedLocatorKind::Symbol, symbol),
            },
        }
    }
}

impl SeedTechnicalRelation {
    fn new(kind: SeedRelationKind, source: &str, target: &str, note: &str) -> (relation: Self)
        ensures
            relation.kind == kind,
            relation.source@ == source@,
            relation.target@ == target@,
            relation.note@ == note@,
    {
        SeedTechnicalRelation {
            kind,
            source: String::from_str(source),
            target: String::from_str(target),
            note: String::from_str(note),
        }
    }
}

impl TechnicalSeedDataset {
    /// The dataset's nodes, in order.
    pub closed spec fn node_seq(&self) -> Seq<SeedTechnicalNode> {
        self.nodes@
    }

    /// The dataset's relations, in order.
    pub closed spec fn relation_seq(&self) -> Seq<SeedTechnicalRelation> {
        self.relations@
    }

    /// The public first slice of technical memory.
    pub fn public_first_slice() -> (dataset: Self)
        ensures
            node_keys_distinct(dataset.node_seq()),
            forall|key: Seq<char>| has_node_key(dataset.node_seq(), key) <==> is_seed_node_key(key),
            relations_join_nodes(dataset.node_seq(), dataset.relation_seq()),
            dataset.node_seq().len() == SEED_NODE_COUNT,
            dataset.relation_seq().len() == SEED_RELATION_COUNT,
            node_texts(dataset.node_seq()) == seed_node_texts(),
            relation_texts(dataset.relation_seq()) == seed_relation_texts(),
    {
        let nodes = Self::public_first_slice_nodes();
        let relations = Self::public_first_slice_relations();
        proof {
            assert forall|i: int| 0 <= i < relations@.len() implies has_node_key(nodes@, #[trigger] relations@[i].source@)
                && has_node_key(nodes@, relations@[i].target@) by {
                assert(is_seed_node_key(relations@[i].source@));
                assert(is_seed_node_key(relations@[i].target@));
            }
        }
        TechnicalSeedDataset { nodes, relations }
    }

    pub fn nodes(&self) -> (nodes: &Vec<SeedTechnicalNode>)
        ensures
            nodes@ == self.node_seq(),
    {
        &self.nodes
    }

    pub fn relations(&self) -> (relations: &Vec<SeedTechnicalRelation>)
        ensures
            relations@ == self.relation_seq(),
    {
        &self.relations
    }

    /// The stable keys of the nodes, in order.
    pub fn all_node_keys(&self) -> (keys: Vec<String>)
        ensures
            keys@.len() == self.node_seq().len(),
            forall|i: int| 0 <= i < keys@.len() ==> #[trigger] keys@[i] == self.node_seq()[i].stable_key,
    {
        let mut keys: Vec<String> = Vec::new();
        let mut index: usize = 0;
        while index < self.nodes.len()
            invariant
                index <= self.nodes@.len(),
                keys@.len() == index,
                forall|i: int| 0 <= i < index ==> #[trigger] keys@[i] == self.nodes@[i].stable_key,
            decreases self.nodes@.len() - index,
        {
            keys.push(self.nodes[index].stable_key.clone());
            index = index + 1;
        }
        keys
    }

    /// The relations as (kind, source key, target key), in order.
    pub fn all_relation_triples(&self) -> (triples: Vec<(SeedRelationKind, String, String)>)
        ensures
            triples@.len() == self.relation_seq().len(),
            forall|i: int|
                0 <= i < triples@.len() ==> #[trigger] triples@[i] == (
                    self.relation_seq()[i].kind,
                    self.relation_seq()[i].source,
                    self.relation_seq()[i].target,
                ),
    {
        let mut triples: Vec<(SeedRelationKind, String, String)> = Vec::new();
        let mut index: usize = 0;
        while index < self.relations.len()
            invariant
                index <= self.relations@.len(),
                triples@.len() == index,
                forall|i: int|
                    0 <= i < index ==> #[trigger] triples@[i] == (
                        self.relations@[i].kind,
                        self.relations@[i].source,
                        self.relations@[i].target,
                    ),
            decreases self.relations@.len() - index,
        {
            let relation = &self.relations[index];
            triples.push((relation.kind, relation.source.clone(), relation.target.clone()));
            index = index + 1;
        }
        triples
    }

    pub fn mind_component_key(&self) -> (key: String)
        ensures
            key@ == "component:mind"@,
    {
        String::from_str("component:mind")
    }

    pub fn signal_mind_contract_key(&self) -> (key: String)
        ensures
            key@ == "contract:signal-mind:ordinary"@,
    {
        String::from_str("contract:signal-mind:ordinary")
    }

    pub fn durable_storage_claim_key(&self) -> (key: String)
        ensures
            key@ == "storage:mind:mind.sema"@,
    {
        String::from_str("storage:mind:mind.sema")
    }

    pub fn primary_irfi_epic_key(&self) -> (key: String)
        ensures
            key@ == "task:primary-irfi"@,
    {
        String::from_str("task:primary-irfi")
    }

    pub fn primary_irfi_slice_claim_key(&self) -> (key: String)
        ensures
            key@ == "claim:primary-irfi-completed-first-technical-memory-slice"@,
    {
        String::from_str("claim:primary-irfi-completed-first-technical-memory-slice")
    }

    pub fn mind_nix_check_witness_key(&self) -> (key: String)
        ensures
            key@ == "witness:mind-nix-flake-check-2026-06-27"@,
    {
        String::from_str("witness:mind-nix-flake-check-2026-06-27")
    }

    pub fn signal_mind_nix_check_witness_key(&self) -> (key: String)
        ensures
            key@ == "witness:signal-mind-nix-flake-check-2026-06-27"@,
    {
        String::from_str("witness:signal-mind-nix-flake-check-2026-06-27")
    }

    /// The seed's nodes, in order: no two share a stable key, and their keys
    /// are the seed node keys.
    fn public_first_slice_nodes() -> (nodes: Vec<SeedTechnicalNode>)
        ensures
            node_keys_distinct(nodes@),
            forall|key: Seq<char>| has_node_key(nodes@, key) <==> is_seed_node_key(key),
            nodes@.len() == SEED_NODE_COUNT,
            node_texts(nodes@) == seed_node_texts(),
    {
        proof {
            reveal_strlit("component:mind");
            reveal_strlit("repo:mind");
            reveal_strlit("repo:signal-mind");
            reveal_strlit("repo:meta-signal-mind");
            reveal_strlit("repo:sema-engine");
            reveal_strlit("contract:signal-mind:ordinary");
            reveal_strlit("contract:meta-signal-mind:meta-policy");
            reveal_strlit("crate:mind");
            reveal_strlit("crate:signal-mind");
            reveal_strlit("crate:sema-engine");
            reveal_strlit("storage:mind:mind.sema");
            reveal_strlit("schema:mind:technical-v2");
            reveal_strlit("table:mind:technical_nodes");
            reveal_strlit("table:mind:technical_relations");
            reveal_strlit("artifact:signal-mind-src-graph.rs");
            reveal_strlit("artifact:signal-mind-src-lib.rs");
            reveal_strlit("artifact:mind-src-tables.rs");
            reveal_strlit("artifact:mind-src-actors-dispatch.rs");
            reveal_strlit("artifact:sema-engine-src-engine.rs");
            reveal_strlit("report:system-operator-218-signal-mind-contract-modernization-stop-point-2026-06-13");
            reveal_strlit("report:system-operator-210-sema-versioned-state-engine-and-mind-implementation-2026-06-11");
            reveal_strlit("task:primary-irfi");
            reveal_strlit("task:primary-irfi.1");
            reveal_strlit("task:primary-irfi.2");
            reveal_strlit("task:primary-irfi.3");
            reveal_strlit("task:primary-irfi.4");
            reveal_strlit("task:primary-irfi.5");
            reveal_strlit("task:primary-irfi.6");
            reveal_strlit("task:primary-irfi.7");
            reveal_strlit("artifact:signal-mind-commit-5a5a4fb4");
            reveal_strlit("artifact:mind-commit-c546b29f");
            reveal_strlit("artifact:mind-commit-ad12bfc4");
            reveal_strlit("artifact:mind-commit-4c705095");
            reveal_strlit("artifact:mind-commit-9fd00cf3");
            reveal_strlit("artifact:mind-commit-888ddd51");
            reveal_strlit("artifact:beads-primary-irfi-public-epic");
            reveal_strlit("claim:signal-mind-public-wire-vocabulary");
            reveal_strlit("claim:mind-durable-mind-sema-through-sema-engine");
            reveal_strlit("claim:first-technical-memory-slice-explicit-technical-nodes-relations");
            reveal_strlit("claim:primary-irfi-completed-first-technical-memory-slice");
            reveal_strlit("claim:mind-technical-memory-nix-witnesses-passed-2026-06-27");
            reveal_strlit("witness:persistence");
            reveal_strlit("witness:wire-round-trip");
            reveal_strlit("witness:relation-round-trip");
            reveal_strlit("witness:contract-local-heads");
            reveal_strlit("witness:technical-subscription-delivery");
            reveal_strlit("witness:mind-nix-flake-check-2026-06-27");
            reveal_strlit("witness:signal-mind-nix-flake-check-2026-06-27");
            assert("component:mind"@.len() == 14);
            assert("repo:mind"@.len() == 9);
            assert("repo:signal-mind"@.len() == 16);
            assert("repo:meta-signal-mind"@.len() == 21);
            assert("repo:sema-engine"@.len() == 16);
            assert("contract:signal-mind:ordinary"@.len() == 29);
            assert("contract:meta-signal-mind:meta-policy"@.len() == 37);
            assert("crate:mind"@.len() == 10);
            assert("crate:signal-mind"@.len() == 17);
            assert("crate:sema-engine"@.len() == 17);
            assert("storage:mind:mind.sema"@.len() == 22);
            assert("schema:mind:technical-v2"@.len() == 24);
            assert("table:mind:technical_nodes"@.len() == 26);
            assert("table:mind:technical_relations"@.len() == 30);
            assert("artifact:signal-mind-src-graph.rs"@.len() == 33);
            assert("artifact:signal-mind-src-lib.rs"@.len() == 31);
            assert("artifact:mind-src-tables.rs"@.len() == 27);
            assert("artifact:mind-src-actors-dispatch.rs"@.len() == 36);
            assert("artifact:sema-engine-src-engine.rs"@.len() == 34);
            assert("report:system-operator-218-signal-mind-contract-modernization-stop-point-2026-06-13"@.len() == 83);
            assert("report:system-operator-210-sema-versioned-state-engine-and-mind-implementation-2026-06-11"@.len() == 89);
            assert("task:primary-irfi"@.len() == 17);
            assert("task:primary-irfi.1"@.len() == 19);
            assert("task:primary-irfi.2"@.len() == 19);
            assert("task:primary-irfi.3"@.len() == 19);
            assert("task:primary-irfi.4"@.len() == 19);
            assert("task:primary-irfi.5"@.len() == 19);
            assert("task:primary-irfi.6"@.len() == 19);
            assert("task:primary-irfi.7"@.len() == 19);
            assert("artifact:signal-mind-commit-5a5a4fb4"@.len() == 36);
            assert("artifact:mind-commit-c546b29f"@.len() == 29);
            assert("artifact:mind-commit-ad12bfc4"@.len() == 29);
            assert("artifact:mind-commit-4c705095"@.len() == 29);
            assert("artifact:mind-commit-9fd00cf3"@.len() == 29);
            assert("artifact:mind-commit-888ddd51"@.len() == 29);
            assert("artifact:beads-primary-irfi-public-epic"@.len() == 39);
            assert("claim:signal-mind-public-wire-vocabulary"@.len() == 40);
            assert("claim:mind-durable-mind-sema-through-sema-engine"@.len() == 48);
            assert("claim:first-technical-memory-slice-explicit-technical-nodes-relations"@.len() == 69);
            assert("claim:primary-irfi-completed-first-technical-memory-slice"@.len() == 57);
            assert("claim:mind-technical-memory-nix-witnesses-passed-2026-06-27"@.len() == 59);
            assert("witness:persistence"@.len() == 19);
            assert("witness:wire-round-trip"@.len() == 23);
            assert("witness:relation-round-trip"@.len() == 27);
            assert("witness:contract-local-heads"@.len() == 28);
            assert("witness:technical-subscription-delivery"@.len() == 39);
            assert("witness:mind-nix-flake-check-2026-06-27"@.len() == 39);
            assert("witness:signal-mind-nix-flake-check-2026-06-27"@.len() == 46);
            assert("repo:signal-mind"@[6] == 'i' && "repo:sema-engine"@[6] == 'e');
            assert("contract:signal-mind:ordinary"@[0] == 'c' && "artifact:mind-commit-c546b29f"@[0] == 'a');
            assert("contract:signal-mind:ordinary"@[0] == 'c' && "artifact:mind-commit-ad12bfc4"@[0] == 'a');
            assert("contract:signal-mind:ordinary"@[0] == 'c' && "artifact:mind-commit-4c705095"@[0] == 'a');
            assert("contract:signal-mind:ordinary"@[0] == 'c' && "artifact:mind-commit-9fd00cf3"@[0] == 'a');
            assert("contract:signal-mind:ordinary"@[0] == 'c' && "artifact:mind-commit-888ddd51"@[0] == 'a');
            assert("artifact:mind-commit-c546b29f"@[21] == 'c' && "artifact:mind-commit-ad12bfc4"@[21] == 'a');
            assert("artifact:mind-commit-c546b29f"@[21] == 'c' && "artifact:mind-commit-4c705095"@[21] == '4');
            assert("artifact:mind-commit-c546b29f"@[21] == 'c' && "artifact:mind-commit-9fd00cf3"@[21] == '9');
            assert("artifact:mind-commit-c546b29f"@[21] == 'c' && "artifact:mind-commit-888ddd51"@[21] == '8');
            assert("artifact:mind-commit-ad12bfc4"@[21] == 'a' && "artifact:mind-commit-4c705095"@[21] == '4');
            assert("artifact:mind-commit-ad12bfc4"@[21] == 'a' && "artifact:mind-commit-9fd00cf3"@[21] == '9');
            assert("artifact:mind-commit-ad12bfc4"@[21] == 'a' && "artifact:mind-commit-888ddd51"@[21] == '8');
            assert("artifact:mind-commit-4c705095"@[21] == '4' && "artifact:mind-commit-9fd00cf3"@[21] == '9');
            assert("artifact:mind-commit-4c705095"@[21] == '4' && "artifact:mind-commit-888ddd51"@[21] == '8');
            assert("artifact:mind-commit-9fd00cf3"@[21] == '9' && "artifact:mind-commit-888ddd51"@[21] == '8');
            assert("crate:signal-mind"@[7] == 'i' && "crate:sema-engine"@[7] == 'e');
            assert("crate:signal-mind"@[0] == 'c' && "task:primary-irfi"@[0] == 't');
            assert("crate:sema-engine"@[0] == 'c' && "task:primary-irfi"@[0] == 't');
            assert("artifact:mind-src-tables.rs"@[0] == 'a' && "witness:relation-round-trip"@[0] == 'w');
            assert("artifact:mind-src-actors-dispatch.rs"@[9] == 'm' && "artifact:signal-mind-commit-5a5a4fb4"@[9] == 's');
            assert("task:primary-irfi.1"@[18] == '1' && "task:primary-irfi.2"@[18] == '2');
            assert("task:primary-irfi.1"@[18] == '1' && "task:primary-irfi.3"@[18] == '3');
            assert("task:primary-irfi.1"@[18] == '1' && "task:primary-irfi.4"@[18] == '4');
            assert("task:primary-irfi.1"@[18] == '1' && "task:primary-irfi.5"@[18] == '5');
            assert("task:primary-irfi.1"@[18] == '1' && "task:primary-irfi.6"@[18] == '6');
            assert("task:primary-irfi.1"@[18] == '1' && "task:primary-irfi.7"@[18] == '7');
            assert("task:primary-irfi.1"@[0] == 't' && "witness:persistence"@[0] == 'w');
            assert("task:primary-irfi.2"@[18] == '2' && "task:primary-irfi.3"@[18] == '3');
            assert("task:primary-irfi.2"@[18] == '2' && "task:primary-irfi.4"@[18] == '4');
            assert("task:primary-irfi.2"@[18] == '2' && "task:primary-irfi.5"@[18] == '5');
            assert("task:primary-irfi.2"@[18] == '2' && "task:primary-irfi.6"@[18] == '6');
            assert("task:primary-irfi.2"@[18] == '2' && "task:primary-irfi.7"@[18] == '7');
            assert("task:primary-irfi.2"@[0] == 't' && "witness:persistence"@[0] == 'w');
            assert("task:primary-irfi.3"@[18] == '3' && "task:primary-irfi.4"@[18] == '4');
            assert("task:primary-irfi.3"@[18] == '3' && "task:primary-irfi.5"@[18] == '5');
            assert("task:primary-irfi.3"@[18] == '3' && "task:primary-irfi.6"@[18] == '6');
            assert("task:primary-irfi.3"@[18] == '3' && "task:primary-irfi.7"@[18] == '7');
            assert("task:primary-irfi.3"@[0] == 't' && "witness:persistence"@[0] == 'w');
            assert("task:primary-irfi.4"@[18] == '4' && "task:primary-irfi.5"@[18] == '5');
            assert("task:primary-irfi.4"@[18] == '4' && "task:primary-irfi.6"@[18] == '6');
            assert("task:primary-irfi.4"@[18] == '4' && "task:primary-irfi.7"@[18] == '7');
            assert("task:primary-irfi.4"@[0] == 't' && "witness:persistence"@[0] == 'w');
            assert("task:primary-irfi.5"@[18] == '5' && "task:primary-irfi.6"@[18] == '6');
            assert("task:primary-irfi.5"@[18] == '5' && "task:primary-irfi.7"@[18] == '7');
            assert("task:primary-irfi.5"@[0] == 't' && "witness:persistence"@[0] == 'w');
            assert("task:primary-irfi.6"@[18] == '6' && "task:primary-irfi.7"@[18] == '7');
            assert("task:primary-irfi.6"@[0] == 't' && "witness:persistence"@[0] == 'w');
            assert("task:primary-irfi.7"@[0] == 't' && "witness:persistence"@[0] == 'w');
            assert("artifact:beads-primary-irfi-public-epic"@[0] == 'a' && "witness:technical-subscription-delivery"@[0] == 'w');
            assert("artifact:beads-primary-irfi-public-epic"@[0] == 'a' && "witness:mind-nix-flake-check-2026-06-27"@[0] == 'w');
            assert("witness:technical-subscription-delivery"@[8] == 't' && "witness:mind-nix-flake-check-2026-06-27"@[8] == 'm');
        }
        let mut nodes: Vec<SeedTechnicalNode> = Vec::new();
        let ghost mut keys: spec_fn(Seq<char>) -> bool = |key: Seq<char>| false;
        push_fresh_node(&mut nodes, SeedTechnicalNode::component("component:mind", "mind", "Persona central mind daemon"), Ghost(keys));
        proof {
            let previous = keys;
            keys = |key: Seq<char>| previous(key) || key == "component:mind"@;
        }
        push_fresh_node(&mut nodes, SeedTechnicalNode::repository("repo:mind", "/git/github.com/LiGoldragon/mind", "https://github.com/LiGoldragon/mind"), Ghost(keys));
        proof {
            let previous = keys;
            keys = |key: Seq<char>| previous(key) || key == "repo:mind"@;
        }
        push_fresh_node(&mut nodes, SeedTechnicalNode::repository("repo:signal-mind", "/git/github.com/LiGoldragon/signal-mind", "https://github.com/LiGoldragon/signal-mind"), Ghost(keys));
        proof {
            let previous = keys;
            keys = |key: Seq<char>| previous(key) || key == "repo:signal-mind"@;
        }
        push_fresh_node(&mut nodes, SeedTechnicalNode::repository("repo:meta-signal-mind", "/git/github.com/LiGoldragon/meta-signal-mind", "https://github.com/LiGoldragon/meta-signal-mind"), Ghost(keys));
        proof {
            let previous = keys;
            keys = |key: Seq<char>| previous(key) || key == "repo:meta-signal-mind"@;
        }
        push_fresh_node(&mut nodes, SeedTechnicalNode::repository("repo:sema-engine", "/git/github.com/LiGoldragon/sema-engine", "https://github.com/LiGoldragon/sema-engine"), Ghost(keys));
        proof {
            let previous = keys;
            keys = |key: Seq<char>| previous(key) || key == "repo:sema-engine"@;
        }
        push_fresh_node(&mut nodes, SeedTechnicalNode::contract("contract:signal-mind:ordinary", "signal-mind ordinary contract", ContractSurfaceText::Ordinary), Ghost(keys));
        proof {
            let previous = keys;
            keys = |key: Seq<char>| previous(key) || key == "contract:signal-mind:ordinary"@;
        }
        push_fresh_node(&mut nodes, SeedTechnicalNode::contract("contract:meta-signal-mind:meta-policy", "meta-signal-mind meta policy contract", ContractSurfaceText::Meta), Ghost(keys));
        proof {
            let previous = keys;
            keys = |key: Seq<char>| previous(key) || key == "contract:meta-signal-mind:meta-policy"@;
        }
        push_fresh_node(&mut nodes, SeedTechnicalNode::crate_node("crate:mind", "mind", "repo:mind"), Ghost(keys));
        proof {
            let previous = keys;
            keys = |key: Seq<char>| previous(key) || key == "crate:mind"@;
        }
        push_fresh_node(&mut nodes, SeedTechnicalNode::crate_node("crate:signal-mind", "signal-mind", "repo:signal-mind"), Ghost(keys));
        proof {
            let previous = keys;
            keys = |key: Seq<char>| previous(key) || key == "crate:signal-mind"@;
        }
        push_fresh_node(&mut nodes, SeedTechnicalNode::crate_node("crate:sema-engine", "sema-engine", "repo:sema-engine"), Ghost(keys));
        proof {
            let previous = keys;
            keys = |key: Seq<char>| previous(key) || key == "crate:sema-engine"@;
        }
        push_fresh_node(&mut nodes, SeedTechnicalNode::storage_resource("storage:mind:mind.sema", "component:mind", "mind.sema", "/home/li/.local/state/mind/mind.sema"), Ghost(keys));
        proof {
            let previous = keys;
            keys = |key: Seq<char>| previous(key) || key == "storage:mind:mind.sema"@;
        }
        push_fresh_node(&mut nodes, SeedTechnicalNode::schema_family("schema:mind:technical-v2", "component:mind", "technical-v2"), Ghost(keys));
        proof {
            let previous = keys;
            keys = |key: Seq<char>| previous(key) || key == "schema:mind:technical-v2"@;
        }
        push_fresh_node(&mut nodes, SeedTechnicalNode::table("table:mind:technical_nodes", "storage:mind:mind.sema", "technical_nodes", Some("schema:mind:technical-v2")), Ghost(keys));
        proof {
            let previous = keys;
            keys = |key: Seq<char>| previous(key) || key == "table:mind:technical_nodes"@;
        }
        push_fresh_node(&mut nodes, SeedTechnicalNode::table("table:mind:technical_relations", "storage:mind:mind.sema", "technical_relations", Some("schema:mind:technical-v2")), Ghost(keys));
        proof {
            let previous = keys;
            keys = |key: Seq<char>| previous(key) || key == "table:mind:technical_relations"@;
        }
        push_fresh_node(&mut nodes, SeedTechnicalNode::source_artifact("artifact:signal-mind-src-graph.rs", "/git/github.com/LiGoldragon/signal-mind/src/graph.rs", "signal-mind graph records and subscription event shapes"), Ghost(keys));
        proof {
            let previous = keys;
            keys = |key: Seq<char>| previous(key) || key == "artifact:signal-mind-src-graph.rs"@;
        }
        push_fresh_node(&mut nodes, SeedTechnicalNode::source_artifact("artifact:signal-mind-src-lib.rs", "/git/github.com/LiGoldragon/signal-mind/src/lib.rs", "signal-mind channel declaration and contract-local heads"), Ghost(keys));
        proof {
            let previous = keys;
            keys = |key: Seq<char>| previous(key) || key == "artifact:signal-mind-src-lib.rs"@;
        }
        push_fresh_node(&mut nodes, SeedTechnicalNode::source_artifact("artifact:mind-src-tables.rs", "/git/github.com/LiGoldragon/mind/src/tables.rs", "mind technical node and relation storage families"), Ghost(keys));
        proof {
            let previous = keys;
            keys = |key: Seq<char>| previous(key) || key == "artifact:mind-src-tables.rs"@;
        }
        push_fresh_node(&mut nodes, SeedTechnicalNode::source_artifact("artifact:mind-src-actors-dispatch.rs", "/git/github.com/LiGoldragon/mind/src/actors/dispatch.rs", "mind dispatch routing for technical memory operations"), Ghost(keys));
        proof {
            let previous = keys;
            keys = |key: Seq<char>| previous(key) || key == "artifact:mind-src-actors-dispatch.rs"@;
        }
        push_fresh_node(&mut nodes, SeedTechnicalNode::source_artifact("artifact:sema-engine-src-engine.rs", "/git/github.com/LiGoldragon/sema-engine/src/engine.rs", "sema-engine durable engine implementation"), Ghost(keys));
        proof {
            let previous = keys;
            keys = |key: Seq<char>| previous(key) || key == "artifact:sema-engine-src-engine.rs"@;
        }
        push_fresh_node(&mut nodes, SeedTechnicalNode::report("report:system-operator-218-signal-mind-contract-modernization-stop-point-2026-06-13", "/home/li/primary/reports/system-operator/218-signal-mind-contract-modernization-stop-point-2026-06-13.md", "signal-mind contract modernization stop point and schema gap"), Ghost(keys));
        proof {
            let previous = keys;
            keys = |key: Seq<char>| previous(key) || key == "report:system-operator-218-signal-mind-contract-modernization-stop-point-2026-06-13"@;
        }
        push_fresh_node(&mut nodes, SeedTechnicalNode::report("report:system-operator-210-sema-versioned-state-engine-and-mind-implementation-2026-06-11", "/home/li/primary/reports/system-operator/210-sema-versioned-state-engine-and-mind-implementation-2026-06-11.md", "sema-engine versioned state substrate and mind integration provenance"), Ghost(keys));
        proof {
            let previous = keys;
            keys = |key: Seq<char>| previous(key) || key == "report:system-operator-210-sema-versioned-state-engine-and-mind-implementation-2026-06-11"@;
        }
        push_fresh_node(&mut nodes, SeedTechnicalNode::work_item("task:primary-irfi", "primary-irfi", "Mind typed technical dependency memory production slice"), Ghost(keys));
        proof {
            let previous = keys;
            keys = |key: Seq<char>| previous(key) || key == "task:primary-irfi"@;
        }
        push_fresh_node(&mut nodes, SeedTechnicalNode::work_item("task:primary-irfi.1", "primary-irfi.1", "Add signal-mind technical contract types and round-trip tests"), Ghost(keys));
        proof {
            let previous = keys;
            keys = |key: Seq<char>| previous(key) || key == "task:primary-irfi.1"@;
        }
        push_fresh_node(&mut nodes, SeedTechnicalNode::work_item("task:primary-irfi.2", "primary-irfi.2", "Update mind to consume the new signal-mind contract"), Ghost(keys));
        proof {
            let previous = keys;
            keys = |key: Seq<char>| previous(key) || key == "task:primary-irfi.2"@;
        }
        push_fresh_node(&mut nodes, SeedTechnicalNode::work_item("task:primary-irfi.3", "primary-irfi.3", "Add MindTables schema v9 technical storage families"), Ghost(keys));
        proof {
            let previous = keys;
            keys = |key: Seq<char>| previous(key) || key == "task:primary-irfi.3"@;
        }
        push_fresh_node(&mut nodes, SeedTechnicalNode::work_item("task:primary-irfi.4", "primary-irfi.4", "Implement Mind technical append and query handling"), Ghost(keys));
        proof {
            let previous = keys;
            keys = |key: Seq<char>| previous(key) || key == "task:primary-irfi.4"@;
        }
        push_fresh_node(&mut nodes, SeedTechnicalNode::work_item("task:primary-irfi.5", "primary-irfi.5", "Extend Mind subscriptions and events for technical records"), Ghost(keys));
        proof {
            let previous = keys;
            keys = |key: Seq<char>| previous(key) || key == "task:primary-irfi.5"@;
        }
        push_fresh_node(&mut nodes, SeedTechnicalNode::work_item("task:primary-irfi.6", "primary-irfi.6", "Add public technical seed dataset and end-to-end witnesses"), Ghost(keys));
        proof {
            let previous = keys;
            keys = |key: Seq<char>| previous(key) || key == "task:primary-irfi.6"@;
        }
        push_fresh_node(&mut nodes, SeedTechnicalNode::work_item("task:primary-irfi.7", "primary-irfi.7", "Bump versions and land Nix/check witnesses for Mind technical memory"), Ghost(keys));
        proof {
            let previous = keys;
            keys = |key: Seq<char>| previous(key) || key == "task:primary-irfi.7"@;
        }
        push_fresh_node(&mut nodes, SeedTechnicalNode::source_artifact_with_locator("artifact:signal-mind-commit-5a5a4fb4", SeedLocatorKind::Url, "https://github.com/LiGoldragon/signal-mind/commit/5a5a4fb43e92da301e018853330eb08288e7b6ac", "signal-mind 0.2.0 technical memory contract commit"), Ghost(keys));
        proof {
            let previous = keys;
            keys = |key: Seq<char>| previous(key) || key == "artifact:signal-mind-commit-5a5a4fb4"@;
        }
        push_fresh_node(&mut nodes, SeedTechnicalNode::source_artifact_with_locator("artifact:mind-commit-c546b29f", SeedLocatorKind::Url, "https://github.com/LiGoldragon/mind/commit/c546b29f66b0edf6820217e4610ed872fb00d3f6", "mind consumes signal-mind 0.2.0 technical contract commit"), Ghost(keys));
        proof {
            let previous = keys;
            keys = |key: Seq<char>| previous(key) || key == "artifact:mind-commit-c546b29f"@;
        }
        push_fresh_node(&mut nodes, SeedTechnicalNode::source_artifact_with_locator("artifact:mind-commit-ad12bfc4", SeedLocatorKind::Url, "https://github.com/LiGoldragon/mind/commit/ad12bfc487f7142390922a2d2bee234c3f982f6d", "MindTables schema v9 technical storage family commit"), Ghost(keys));
        proof {
            let previous = keys;
            keys = |key: Seq<char>| previous(key) || key == "artifact:mind-commit-ad12bfc4"@;
        }
        push_fresh_node(&mut nodes, SeedTechnicalNode::source_artifact_with_locator("artifact:mind-commit-4c705095", SeedLocatorKind::Url, "https://github.com/LiGoldragon/mind/commit/4c705095e7f1c96ca02478f3053f538c402a5a03", "mind 0.5.0 technical append and query commit"), Ghost(keys));
        proof {
            let previous = keys;
            keys = |key: Seq<char>| previous(key) || key == "artifact:mind-commit-4c705095"@;
        }
        push_fresh_node(&mut nodes, SeedTechnicalNode::source_artifact_with_locator("artifact:mind-commit-9fd00cf3", SeedLocatorKind::Url, "https://github.com/LiGoldragon/mind/commit/9fd00cf385d4317cdf3df582fdd3a0334e36984b", "technical subscription event delivery commit"), Ghost(keys));
        proof {
            let previous = keys;
            keys = |key: Seq<char>| previous(key) || key == "artifact:mind-commit-9fd00cf3"@;
        }
        push_fresh_node(&mut nodes, SeedTechnicalNode::source_artifact_with_locator("artifact:mind-commit-888ddd51", SeedLocatorKind::Url, "https://github.com/LiGoldragon/mind/commit/888ddd518f90ec705df2ffff0d4af92a62e87279", "public technical seed witness commit"), Ghost(keys));
        proof {
            let previous = keys;
            keys = |key: Seq<char>| previous(key) || key == "artifact:mind-commit-888ddd51"@;
        }
        push_fresh_node(&mut nodes, SeedTechnicalNode::source_artifact_with_locator("artifact:beads-primary-irfi-public-epic", SeedLocatorKind::Task, "primary-irfi", "public BEADS epic that completed the first Mind technical memory slice"), Ghost(keys));
        proof {
            let previous = keys;
            keys = |key: Seq<char>| previous(key) || key == "artifact:beads-primary-irfi-public-epic"@;
        }
        push_fresh_node(&mut nodes, SeedTechnicalNode::claim("claim:signal-mind-public-wire-vocabulary", "signal-mind owns public Mind wire vocabulary"), Ghost(keys));
        proof {
            let previous = keys;
            keys = |key: Seq<char>| previous(key) || key == "claim:signal-mind-public-wire-vocabulary"@;
        }
        push_fresh_node(&mut nodes, SeedTechnicalNode::claim("claim:mind-durable-mind-sema-through-sema-engine", "mind owns durable mind.sema through sema-engine"), Ghost(keys));
        proof {
            let previous = keys;
            keys = |key: Seq<char>| previous(key) || key == "claim:mind-durable-mind-sema-through-sema-engine"@;
        }
        push_fresh_node(&mut nodes, SeedTechnicalNode::claim("claim:first-technical-memory-slice-explicit-technical-nodes-relations", "first technical memory slice adds explicit technical nodes and relations, not generic Thought conventions"), Ghost(keys));
        proof {
            let previous = keys;
            keys = |key: Seq<char>| previous(key) || key == "claim:first-technical-memory-slice-explicit-technical-nodes-relations"@;
        }
        push_fresh_node(&mut nodes, SeedTechnicalNode::claim("claim:primary-irfi-completed-first-technical-memory-slice", "primary-irfi completed the first public Mind typed technical dependency memory production slice"), Ghost(keys));
        proof {
            let previous = keys;
            keys = |key: Seq<char>| previous(key) || key == "claim:primary-irfi-completed-first-technical-memory-slice"@;
        }
        push_fresh_node(&mut nodes, SeedTechnicalNode::claim("claim:mind-technical-memory-nix-witnesses-passed-2026-06-27", "Mind technical memory Nix witnesses passed on 2026-06-27"), Ghost(keys));
        proof {
            let previous = keys;
            keys = |key: Seq<char>| previous(key) || key == "claim:mind-technical-memory-nix-witnesses-passed-2026-06-27"@;
        }
        push_fresh_node(&mut nodes, SeedTechnicalNode::witness("witness:persistence", "technical memory persistence survives daemon restart", "Symbol:mind_typed_technical_seed_survives_daemon_restart_and_queries_back"), Ghost(keys));
        proof {
            let previous = keys;
            keys = |key: Seq<char>| previous(key) || key == "witness:persistence"@;
        }
        push_fresh_node(&mut nodes, SeedTechnicalNode::witness("witness:wire-round-trip", "technical seed submissions cross the daemon Signal-frame path", "Symbol:mind_typed_technical_seed_survives_daemon_restart_and_queries_back"), Ghost(keys));
        proof {
            let previous = keys;
            keys = |key: Seq<char>| previous(key) || key == "witness:wire-round-trip"@;
        }
        push_fresh_node(&mut nodes, SeedTechnicalNode::witness("witness:relation-round-trip", "technical relations round trip with committed endpoint identifiers", "Symbol:mind_typed_technical_seed_survives_daemon_restart_and_queries_back"), Ghost(keys));
        proof {
            let previous = keys;
            keys = |key: Seq<char>| previous(key) || key == "witness:relation-round-trip"@;
        }
        push_fresh_node(&mut nodes, SeedTechnicalNode::witness("witness:contract-local-heads", "signal-mind contract-local heads cover technical operations", "Symbol:mind_request_variants_declare_contract_local_operation_heads"), Ghost(keys));
        proof {
            let previous = keys;
            keys = |key: Seq<char>| previous(key) || key == "witness:contract-local-heads"@;
        }
        push_fresh_node(&mut nodes, SeedTechnicalNode::witness("witness:technical-subscription-delivery", "technical node and relation subscriptions deliver post-commit deltas", "Symbol:public_technical_seed_delivers_subscription_deltas"), Ghost(keys));
        proof {
            let previous = keys;
            keys = |key: Seq<char>| previous(key) || key == "witness:technical-subscription-delivery"@;
        }
        push_fresh_node(&mut nodes, SeedTechnicalNode::witness("witness:mind-nix-flake-check-2026-06-27", "mind nix flake check -L passed on 2026-06-27 with technical storage, append/query, subscription, seed, daemon, CLI, fmt, doc, clippy, and actor-truth checks", "Nix:mind:nix-flake-check-L:2026-06-27"), Ghost(keys));
        proof {
            let previous = keys;
            keys = |key: Seq<char>| previous(key) || key == "witness:mind-nix-flake-check-2026-06-27"@;
        }
        push_fresh_node(&mut nodes, SeedTechnicalNode::witness("witness:signal-mind-nix-flake-check-2026-06-27", "signal-mind nix flake check -L passed on 2026-06-27 with round-trip, validation, docs, fmt, and clippy checks", "Nix:signal-mind:nix-flake-check-L:2026-06-27"), Ghost(keys));
        proof {
            let previous = keys;
            keys = |key: Seq<char>| previous(key) || key == "witness:signal-mind-nix-flake-check-2026-06-27"@;
        }
        proof {
            assert forall|key: Seq<char>| keys(key) <==> is_seed_node_key(key) by {}
        }
        nodes
    }

    /// The seed's relations, in order; each joins two seed nodes.
    fn public_first_slice_relations() -> (relations: Vec<SeedTechnicalRelation>)
        ensures
            forall|i: int|
                0 <= i < relations@.len() ==> is_seed_node_key(#[trigger] relations@[i].source@) && is_seed_node_key(
                    relations@[i].target@,
                ),
            relations@.len() == SEED_RELATION_COUNT,
            relation_texts(relations@) == seed_relation_texts(),
    {
        let mut relations: Vec<SeedTechnicalRelation> = Vec::new();
        push_joining_relation(&mut relations, SeedTechnicalRelation::new(SeedRelationKind::OwnsRepository, "component:mind", "repo:mind", "mind owns its public implementation repository"));
        push_joining_relation(&mut relations, SeedTechnicalRelation::new(SeedRelationKind::WireDependency, "component:mind", "contract:signal-mind:ordinary", "mind consumes the ordinary signal-mind contract"));
        push_joining_relation(&mut relations, SeedTechnicalRelation::new(SeedRelationKind::WireDependency, "component:mind", "contract:meta-signal-mind:meta-policy", "mind consumes the owner-side meta policy contract"));
        push_joining_relation(&mut relations, SeedTechnicalRelation::new(SeedRelationKind::StorageDependency, "component:mind", "storage:mind:mind.sema", "mind owns durable mind.sema through sema-engine"));
        push_joining_relation(&mut relations, SeedTechnicalRelation::new(SeedRelationKind::BuildDependency, "component:mind", "crate:sema-engine", "mind builds against sema-engine"));
        push_joining_relation(&mut relations, SeedTechnicalRelation::new(SeedRelationKind::RuntimeDependency, "component:mind", "crate:sema-engine", "mind uses sema-engine at runtime"));
        push_joining_relation(&mut relations, SeedTechnicalRelation::new(SeedRelationKind::StorageDependency, "storage:mind:mind.sema", "schema:mind:technical-v2", "mind.sema stores the technical vocabulary v2 schema family"));
        push_joining_relation(&mut relations, SeedTechnicalRelation::new(SeedRelationKind::StorageDependency, "schema:mind:technical-v2", "table:mind:technical_nodes", "technical vocabulary v2 includes the technical_nodes table"));
        push_joining_relation(&mut relations, SeedTechnicalRelation::new(SeedRelationKind::StorageDependency, "schema:mind:technical-v2", "table:mind:technical_relations", "technical vocabulary v2 includes the technical_relations table"));
        push_joining_relation(&mut relations, SeedTechnicalRelation::new(SeedRelationKind::DefinesContract, "repo:signal-mind", "contract:signal-mind:ordinary", "signal-mind defines the ordinary Mind channel"));
        push_joining_relation(&mut relations, SeedTechnicalRelation::new(SeedRelationKind::DefinesContract, "repo:meta-signal-mind", "contract:meta-signal-mind:meta-policy", "meta-signal-mind defines the meta Mind policy channel"));
        push_joining_relation(&mut relations, SeedTechnicalRelation::new(SeedRelationKind::DefinesCrate, "repo:sema-engine", "crate:sema-engine", "sema-engine repository defines the sema-engine crate"));
        push_joining_relation(&mut relations, SeedTechnicalRelation::new(SeedRelationKind::Documents, "report:system-operator-218-signal-mind-contract-modernization-stop-point-2026-06-13", "contract:signal-mind:ordinary", "report 218 documents the signal-mind schema gap and modernization stop point"));
        push_joining_relation(&mut relations, SeedTechnicalRelation::new(SeedRelationKind::Documents, "report:system-operator-210-sema-versioned-state-engine-and-mind-implementation-2026-06-11", "crate:sema-engine", "report 210 documents sema-engine versioned state provenance used by mind"));
        push_joining_relation(&mut relations, SeedTechnicalRelation::new(SeedRelationKind::ClaimsAbout, "claim:signal-mind-public-wire-vocabulary", "contract:signal-mind:ordinary", "the claim is about the ordinary Mind wire vocabulary"));
        push_joining_relation(&mut relations, SeedTechnicalRelation::new(SeedRelationKind::ClaimsAbout, "claim:mind-durable-mind-sema-through-sema-engine", "crate:sema-engine", "the durable mind.sema claim is about the sema-engine crate"));
        push_joining_relation(&mut relations, SeedTechnicalRelation::new(SeedRelationKind::ClaimsAbout, "claim:first-technical-memory-slice-explicit-technical-nodes-relations", "component:mind", "the first technical memory slice is a mind production slice"));
        push_joining_relation(&mut relations, SeedTechnicalRelation::new(SeedRelationKind::ClaimsAbout, "claim:primary-irfi-completed-first-technical-memory-slice", "task:primary-irfi", "the completed-slice claim is about the primary-irfi epic"));
        push_joining_relation(&mut relations, SeedTechnicalRelation::new(SeedRelationKind::ClaimsAbout, "claim:mind-technical-memory-nix-witnesses-passed-2026-06-27", "task:primary-irfi.7", "the Nix witness claim is about final version/check reconciliation"));
        push_joining_relation(&mut relations, SeedTechnicalRelation::new(SeedRelationKind::LocatedAt, "contract:signal-mind:ordinary", "artifact:signal-mind-src-lib.rs", "the ordinary Mind channel is declared in signal-mind/src/lib.rs"));
        push_joining_relation(&mut relations, SeedTechnicalRelation::new(SeedRelationKind::LocatedAt, "contract:signal-mind:ordinary", "artifact:signal-mind-src-graph.rs", "the graph event vocabulary is implemented in signal-mind/src/graph.rs"));
        push_joining_relation(&mut relations, SeedTechnicalRelation::new(SeedRelationKind::LocatedAt, "claim:mind-durable-mind-sema-through-sema-engine", "artifact:mind-src-tables.rs", "mind/src/tables.rs owns the technical Sema families"));
        push_joining_relation(&mut relations, SeedTechnicalRelation::new(SeedRelationKind::LocatedAt, "claim:first-technical-memory-slice-explicit-technical-nodes-relations", "artifact:mind-src-tables.rs", "technical node and relation records are durable table families"));
        push_joining_relation(&mut relations, SeedTechnicalRelation::new(SeedRelationKind::LocatedAt, "claim:first-technical-memory-slice-explicit-technical-nodes-relations", "artifact:mind-src-actors-dispatch.rs", "technical requests route through mind dispatch"));
        push_joining_relation(&mut relations, SeedTechnicalRelation::new(SeedRelationKind::LocatedAt, "crate:sema-engine", "artifact:sema-engine-src-engine.rs", "sema-engine crate behavior is located in sema-engine/src/engine.rs"));
        push_joining_relation(&mut relations, SeedTechnicalRelation::new(SeedRelationKind::LocatedAt, "task:primary-irfi", "artifact:beads-primary-irfi-public-epic", "the primary-irfi epic source is the public BEADS task"));
        push_joining_relation(&mut relations, SeedTechnicalRelation::new(SeedRelationKind::Implements, "artifact:signal-mind-src-lib.rs", "contract:signal-mind:ordinary", "signal-mind/src/lib.rs implements the ordinary Mind contract declaration"));
        push_joining_relation(&mut relations, SeedTechnicalRelation::new(SeedRelationKind::Implements, "artifact:mind-src-tables.rs", "claim:first-technical-memory-slice-explicit-technical-nodes-relations", "mind/src/tables.rs implements the first technical memory table families"));
        push_joining_relation(&mut relations, SeedTechnicalRelation::new(SeedRelationKind::Implements, "artifact:mind-src-actors-dispatch.rs", "claim:first-technical-memory-slice-explicit-technical-nodes-relations", "mind dispatch implements technical memory request routing"));
        push_joining_relation(&mut relations, SeedTechnicalRelation::new(SeedRelationKind::Implements, "artifact:sema-engine-src-engine.rs", "claim:mind-durable-mind-sema-through-sema-engine", "sema-engine implements the durable engine mind uses"));
        push_joining_relation(&mut relations, SeedTechnicalRelation::new(SeedRelationKind::Implements, "task:primary-irfi.1", "contract:signal-mind:ordinary", "primary-irfi.1 implemented the signal-mind technical contract surface"));
        push_joining_relation(&mut relations, SeedTechnicalRelation::new(SeedRelationKind::Implements, "task:primary-irfi.2", "claim:signal-mind-public-wire-vocabulary", "primary-irfi.2 made mind consume the new technical wire vocabulary"));
        push_joining_relation(&mut relations, SeedTechnicalRelation::new(SeedRelationKind::Implements, "task:primary-irfi.3", "claim:mind-durable-mind-sema-through-sema-engine", "primary-irfi.3 added the technical storage families under mind.sema"));
        push_joining_relation(&mut relations, SeedTechnicalRelation::new(SeedRelationKind::Implements, "task:primary-irfi.4", "claim:first-technical-memory-slice-explicit-technical-nodes-relations", "primary-irfi.4 implemented technical append and query handling"));
        push_joining_relation(&mut relations, SeedTechnicalRelation::new(SeedRelationKind::Implements, "task:primary-irfi.5", "claim:first-technical-memory-slice-explicit-technical-nodes-relations", "primary-irfi.5 implemented technical subscription delivery"));
        push_joining_relation(&mut relations, SeedTechnicalRelation::new(SeedRelationKind::Implements, "task:primary-irfi.6", "claim:first-technical-memory-slice-explicit-technical-nodes-relations", "primary-irfi.6 added the public seed dataset and witnesses"));
        push_joining_relation(&mut relations, SeedTechnicalRelation::new(SeedRelationKind::Implements, "task:primary-irfi.7", "claim:mind-technical-memory-nix-witnesses-passed-2026-06-27", "primary-irfi.7 landed final version and Nix/check witness evidence"));
        push_joining_relation(&mut relations, SeedTechnicalRelation::new(SeedRelationKind::TaskDependency, "task:primary-irfi", "task:primary-irfi.1", "the primary-irfi epic completion depended on child task primary-irfi.1"));
        push_joining_relation(&mut relations, SeedTechnicalRelation::new(SeedRelationKind::TaskDependency, "task:primary-irfi", "task:primary-irfi.2", "the primary-irfi epic completion depended on child task primary-irfi.2"));
        push_joining_relation(&mut relations, SeedTechnicalRelation::new(SeedRelationKind::TaskDependency, "task:primary-irfi", "task:primary-irfi.3", "the primary-irfi epic completion depended on child task primary-irfi.3"));
        push_joining_relation(&mut relations, SeedTechnicalRelation::new(SeedRelationKind::TaskDependency, "task:primary-irfi", "task:primary-irfi.4", "the primary-irfi epic completion depended on child task primary-irfi.4"));
        push_joining_relation(&mut relations, SeedTechnicalRelation::new(SeedRelationKind::TaskDependency, "task:primary-irfi", "task:primary-irfi.5", "the primary-irfi epic completion depended on child task primary-irfi.5"));
        push_joining_relation(&mut relations, SeedTechnicalRelation::new(SeedRelationKind::TaskDependency, "task:primary-irfi", "task:primary-irfi.6", "the primary-irfi epic completion depended on child task primary-irfi.6"));
        push_joining_relation(&mut relations, SeedTechnicalRelation::new(SeedRelationKind::TaskDependency, "task:primary-irfi", "task:primary-irfi.7", "the primary-irfi epic completion depended on child task primary-irfi.7"));
        push_joining_relation(&mut relations, SeedTechnicalRelation::new(SeedRelationKind::TaskDependency, "task:primary-irfi.1", "task:primary-irfi.2", "contract work unblocked mind consumption"));
        push_joining_relation(&mut relations, SeedTechnicalRelation::new(SeedRelationKind::TaskDependency, "task:primary-irfi.2", "task:primary-irfi.3", "contract consumption unblocked storage family work"));
        push_joining_relation(&mut relations, SeedTechnicalRelation::new(SeedRelationKind::TaskDependency, "task:primary-irfi.3", "task:primary-irfi.4", "storage families unblocked append and query handling"));
        push_joining_relation(&mut relations, SeedTechnicalRelation::new(SeedRelationKind::TaskDependency, "task:primary-irfi.4", "task:primary-irfi.5", "append handling unblocked technical subscription delivery"));
        push_joining_relation(&mut relations, SeedTechnicalRelation::new(SeedRelationKind::TaskDependency, "task:primary-irfi.4", "task:primary-irfi.6", "append and query handling unblocked seed witnesses"));
        push_joining_relation(&mut relations, SeedTechnicalRelation::new(SeedRelationKind::TaskDependency, "task:primary-irfi.5", "task:primary-irfi.6", "subscription delivery unblocked seed subscription witnesses"));
        push_joining_relation(&mut relations, SeedTechnicalRelation::new(SeedRelationKind::TaskDependency, "task:primary-irfi.6", "task:primary-irfi.7", "seed witnesses unblocked final version/check reconciliation"));
        push_joining_relation(&mut relations, SeedTechnicalRelation::new(SeedRelationKind::Blocks, "task:primary-irfi.1", "task:primary-irfi.2", "primary-irfi.1 blocked primary-irfi.2"));
        push_joining_relation(&mut relations, SeedTechnicalRelation::new(SeedRelationKind::Blocks, "task:primary-irfi.6", "task:primary-irfi.7", "primary-irfi.6 blocked final version/check reconciliation"));
        push_joining_relation(&mut relations, SeedTechnicalRelation::new(SeedRelationKind::ProvenanceDependency, "claim:primary-irfi-completed-first-technical-memory-slice", "task:primary-irfi", "the completed first-slice claim is grounded in the public BEADS epic"));
        push_joining_relation(&mut relations, SeedTechnicalRelation::new(SeedRelationKind::ProvenanceDependency, "claim:primary-irfi-completed-first-technical-memory-slice", "artifact:beads-primary-irfi-public-epic", "the public BEADS epic is the source record for the completed slice"));
        push_joining_relation(&mut relations, SeedTechnicalRelation::new(SeedRelationKind::ProvenanceDependency, "task:primary-irfi.1", "artifact:signal-mind-commit-5a5a4fb4", "primary-irfi.1 shipped in signal-mind commit 5a5a4fb4"));
        push_joining_relation(&mut relations, SeedTechnicalRelation::new(SeedRelationKind::ProvenanceDependency, "task:primary-irfi.2", "artifact:mind-commit-c546b29f", "primary-irfi.2 shipped in mind commit c546b29f"));
        push_joining_relation(&mut relations, SeedTechnicalRelation::new(SeedRelationKind::ProvenanceDependency, "task:primary-irfi.3", "artifact:mind-commit-ad12bfc4", "primary-irfi.3 shipped in mind commit ad12bfc4"));
        push_joining_relation(&mut relations, SeedTechnicalRelation::new(SeedRelationKind::ProvenanceDependency, "task:primary-irfi.4", "artifact:mind-commit-4c705095", "primary-irfi.4 shipped in mind commit 4c705095"));
        push_joining_relation(&mut relations, SeedTechnicalRelation::new(SeedRelationKind::ProvenanceDependency, "task:primary-irfi.5", "artifact:mind-commit-9fd00cf3", "primary-irfi.5 shipped in mind commit 9fd00cf3"));
        push_joining_relation(&mut relations, SeedTechnicalRelation::new(SeedRelationKind::ProvenanceDependency, "task:primary-irfi.6", "artifact:mind-commit-888ddd51", "primary-irfi.6 shipped in mind commit 888ddd51"));
        push_joining_relation(&mut relations, SeedTechnicalRelation::new(SeedRelationKind::ProvenanceDependency, "task:primary-irfi.7", "witness:mind-nix-flake-check-2026-06-27", "primary-irfi.7 recorded the passing mind Nix flake check"));
        push_joining_relation(&mut relations, SeedTechnicalRelation::new(SeedRelationKind::ProvenanceDependency, "task:primary-irfi.7", "witness:signal-mind-nix-flake-check-2026-06-27", "primary-irfi.7 recorded the passing signal-mind Nix flake check"));
        push_joining_relation(&mut relations, SeedTechnicalRelation::new(SeedRelationKind::ProvenBy, "claim:primary-irfi-completed-first-technical-memory-slice", "witness:mind-nix-flake-check-2026-06-27", "mind Nix checks prove the first technical memory slice"));
        push_joining_relation(&mut relations, SeedTechnicalRelation::new(SeedRelationKind::ProvenBy, "claim:primary-irfi-completed-first-technical-memory-slice", "witness:signal-mind-nix-flake-check-2026-06-27", "signal-mind Nix checks prove the contract side of the first technical memory slice"));
        push_joining_relation(&mut relations, SeedTechnicalRelation::new(SeedRelationKind::ProvenBy, "claim:mind-technical-memory-nix-witnesses-passed-2026-06-27", "witness:mind-nix-flake-check-2026-06-27", "the mind Nix witness proves the final mind checks passed"));
        push_joining_relation(&mut relations, SeedTechnicalRelation::new(SeedRelationKind::ProvenBy, "claim:mind-technical-memory-nix-witnesses-passed-2026-06-27", "witness:signal-mind-nix-flake-check-2026-06-27", "the signal-mind Nix witness proves the final contract checks passed"));
        push_joining_relation(&mut relations, SeedTechnicalRelation::new(SeedRelationKind::ProvenBy, "claim:mind-durable-mind-sema-through-sema-engine", "witness:persistence", "persistence witness proves durable technical memory"));
        push_joining_relation(&mut relations, SeedTechnicalRelation::new(SeedRelationKind::ProvenBy, "claim:mind-durable-mind-sema-through-sema-engine", "witness:wire-round-trip", "wire witness proves daemon path submission"));
        push_joining_relation(&mut relations, SeedTechnicalRelation::new(SeedRelationKind::ProvenBy, "claim:first-technical-memory-slice-explicit-technical-nodes-relations", "witness:relation-round-trip", "relation witness proves explicit technical relations round trip"));
        push_joining_relation(&mut relations, SeedTechnicalRelation::new(SeedRelationKind::ProvenBy, "claim:signal-mind-public-wire-vocabulary", "witness:contract-local-heads", "contract-local heads prove public operation vocabulary"));
        push_joining_relation(&mut relations, SeedTechnicalRelation::new(SeedRelationKind::ProvenBy, "claim:first-technical-memory-slice-explicit-technical-nodes-relations", "witness:technical-subscription-delivery", "subscription witness proves technical post-commit deltas"));
        relations
    }
}

/// The number of seed nodes.
pub const SEED_NODE_COUNT: usize = 48;

/// The number of seed relations.
pub const SEED_RELATION_COUNT: usize = 72;

/// Whether `key` is the stable key of a seed node.
pub open spec fn is_seed_node_key(key: Seq<char>) -> bool {
    ||| key == "component:mind"@
    ||| key == "repo:mind"@
    ||| key == "repo:signal-mind"@
    ||| key == "repo:meta-signal-mind"@
    ||| key == "repo:sema-engine"@
    ||| key == "contract:signal-mind:ordinary"@
    ||| key == "contract:meta-signal-mind:meta-policy"@
    ||| key == "crate:mind"@
    ||| key == "crate:signal-mind"@
    ||| key == "crate:sema-engine"@
    ||| key == "storage:mind:mind.sema"@
    ||| key == "schema:mind:technical-v2"@
    ||| key == "table:mind:technical_nodes"@
    ||| key == "table:mind:technical_relations"@
    ||| key == "artifact:signal-mind-src-graph.rs"@
    ||| key == "artifact:signal-mind-src-lib.rs"@
    ||| key == "artifact:mind-src-tables.rs"@
    ||| key == "artifact:mind-src-actors-dispatch.rs"@
    ||| key == "artifact:sema-engine-src-engine.rs"@
    ||| key == "report:system-operator-218-signal-mind-contract-modernization-stop-point-2026-06-13"@
    ||| key == "report:system-operator-210-sema-versioned-state-engine-and-mind-implementation-2026-06-11"@
    ||| key == "task:primary-irfi"@
    ||| key == "task:primary-irfi.1"@
    ||| key == "task:primary-irfi.2"@
    ||| key == "task:primary-irfi.3"@
    ||| key == "task:primary-irfi.4"@
    ||| key == "task:primary-irfi.5"@
    ||| key == "task:primary-irfi.6"@
    ||| key == "task:primary-irfi.7"@
    ||| key == "artifact:signal-mind-commit-5a5a4fb4"@
    ||| key == "artifact:mind-commit-c546b29f"@
    ||| key == "artifact:mind-commit-ad12bfc4"@
    ||| key == "artifact:mind-commit-4c705095"@
    ||| key == "artifact:mind-commit-9fd00cf3"@
    ||| key == "artifact:mind-commit-888ddd51"@
    ||| key == "artifact:beads-primary-irfi-public-epic"@
    ||| key == "claim:signal-mind-public-wire-vocabulary"@
    ||| key == "claim:mind-durable-mind-sema-through-sema-engine"@
    ||| key == "claim:first-technical-memory-slice-explicit-technical-nodes-relations"@
    ||| key == "claim:primary-irfi-completed-first-technical-memory-slice"@
    ||| key == "claim:mind-technical-memory-nix-witnesses-passed-2026-06-27"@
    ||| key == "witness:persistence"@
    ||| key == "witness:wire-round-trip"@
    ||| key == "witness:relation-round-trip"@
    ||| key == "witness:contract-local-heads"@
    ||| key == "witness:technical-subscription-delivery"@
    ||| key == "witness:mind-nix-flake-check-2026-06-27"@
    ||| key == "witness:signal-mind-nix-flake-check-2026-06-27"@
}

/// Pushes a node whose key is not yet one of `keys`, the keys of `nodes`.
fn push_fresh_node(nodes: &mut Vec<SeedTechnicalNode>, node: SeedTechnicalNode, Ghost(keys): Ghost<spec_fn(Seq<char>) -> bool>)
    requires
        node_keys_distinct(old(nodes)@),
        forall|key: Seq<char>| has_node_key(old(nodes)@, key) <==> keys(key),
        !keys(node.stable_key@),
    ensures
        final(nodes)@ == old(nodes)@.push(node),
        node_keys_distinct(final(nodes)@),
        forall|key: Seq<char>| has_node_key(final(nodes)@, key) <==> (keys(key) || key == node.stable_key@),
        node_texts(final(nodes)@) == node_texts(old(nodes)@).push(node_text(node)),
{
    let ghost before = nodes@;
    let ghost key = node.stable_key@;
    nodes.push(node);
    proof {
        let after = nodes@;
        assert(after.drop_last() =~= before);
        assert forall|i: int, j: int| 0 <= i < j < after.len() implies #[trigger] after[i].stable_key@
            != #[trigger] after[j].stable_key@ by {
            assert(after[i] == before[i]);
            if j == before.len() {
                if before[i].stable_key@ == key {
                    assert(has_node_key(before, key));
                }
            } else {
                assert(after[j] == before[j]);
            }
        }
        assert forall|k: Seq<char>| has_node_key(after, k) <==> (keys(k) || k == key) by {
            if has_node_key(after, k) {
                let i = choose|i: int| 0 <= i < after.len() && #[trigger] after[i].stable_key@ == k;
                if i < before.len() {
                    assert(after[i] == before[i]);
                    assert(has_node_key(before, k));
                }
            }
            if keys(k) || k == key {
                if k == key {
                    assert(after[before.len() as int].stable_key@ == k);
                } else {
                    assert(has_node_key(before, k));
                    let i = choose|i: int| 0 <= i < before.len() && #[trigger] before[i].stable_key@ == k;
                    assert(after[i] == before[i]);
                }
            }
        }
    }
}

/// Pushes a relation whose two ends are seed node keys.
fn push_joining_relation(relations: &mut Vec<SeedTechnicalRelation>, relation: SeedTechnicalRelation)
    requires
        forall|i: int|
            0 <= i < old(relations)@.len() ==> is_seed_node_key(#[trigger] old(relations)@[i].source@)
                && is_seed_node_key(old(relations)@[i].target@),
        is_seed_node_key(relation.source@),
        is_seed_node_key(relation.target@),
    ensures
        final(relations)@ == old(relations)@.push(relation),
        relation_texts(final(relations)@) == relation_texts(old(relations)@).push(relation_text(relation)),
        forall|i: int|
            0 <= i < final(relations)@.len() ==> is_seed_node_key(#[trigger] final(relations)@[i].source@)
                && is_seed_node_key(final(relations)@[i].target@),
{
    let ghost before = relations@;
    relations.push(relation);
    proof {
        assert(relations@.drop_last() =~= before);
        assert forall|i: int| 0 <= i < relations@.len() implies is_seed_node_key(
            #[trigger] relations@[i].source@,
        ) && is_seed_node_key(relations@[i].target@) by {
            if i < before.len() {
                assert(relations@[i] == before[i]);
            } else {
                assert(relations@[i] == relation);
            }
        }
    }
}

} // verus!
