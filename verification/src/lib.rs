//! Verified core of a terminal Kubernetes browser: text editing, selection,
//! undo/redo bookkeeping and terminal escape sequences.

pub mod pattern;
pub mod pod_describe;
pub mod picker;
pub mod position;
pub mod resource_table;
pub mod resources;
pub mod screen;
pub mod search_widget;
pub mod select_widget;
pub mod selection;
pub mod service_describe;
pub mod strings;
pub mod cell;
pub mod content;
pub mod describe;
pub mod describe_builder;
pub mod describe_content;
pub mod describe_laws;
pub mod edit;
pub mod events;
pub mod forwards;
pub mod forwards_view;
pub mod copy_laws;
pub mod edit_laws;
pub mod scroll_laws;
pub mod terminal_laws;
pub mod laws;
pub mod list_header;
pub mod list_viewer;
pub mod logs;
pub mod logs_observer;
pub mod lowercase;
pub mod matching;
pub mod node_describe;
pub mod table_row;
pub mod terminal;
pub mod text;
pub mod undo;
pub mod utf8;
pub mod values;
pub mod viewer;
pub mod volume_describe;
pub mod widgets;
pub mod yaml;
pub mod yaml_view;
