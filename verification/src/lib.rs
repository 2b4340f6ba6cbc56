//! Central typed mind state for Persona agents: the verified core of the
//! `mind` component.

pub mod radix;
pub mod text_build;
pub mod compact_id;
pub mod knowledge_identity;
pub mod records;
pub mod ordering;
pub mod graph;
pub mod subscription;
pub mod clock;
pub mod knowledge;
pub mod graph_admission;
pub mod graph_ledger;
pub mod frame;
pub mod octal;
pub mod supervision;
pub mod transport;
pub mod meta;
pub mod command;
pub mod choreography;
pub mod text;
pub mod decimal;
pub mod nota_block;
pub mod configuration;
pub mod configuration_writer;
pub mod text_codec;
pub mod technical_seed;
