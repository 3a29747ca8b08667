//! Transcripts of spawned agents, tailed line by line into durable rows.
pub mod chunk;
pub mod claude;
pub mod claude_rows;
pub mod codes;
pub mod codex;
pub mod codex_rows;
pub mod cursor;
pub mod cycle;
pub mod drive;
pub mod effects;
pub mod ingest;
pub mod launch;
pub mod line_rows;
pub mod lines;
pub mod local;
pub mod local_rows;
pub mod names;
pub mod passes;
pub mod pieces;
pub mod record;
pub mod rows;
pub mod source;
pub mod tail;
pub mod times;
