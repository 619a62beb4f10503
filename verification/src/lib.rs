pub mod text;
pub mod transcript;
pub mod patch;
pub mod actions;
pub mod chat;
pub mod keys;
pub mod panes;
pub mod pane;
pub mod action_discovery;
pub mod agent;
pub mod bridge;
pub mod attention;
pub mod bootstrap;
pub mod raster;
pub mod mascot;
pub mod glyphs;
pub mod thread;
pub mod tabs;
pub mod overlay;
pub mod focus;
pub mod feed;
pub mod status;
pub mod composer;
pub mod rail;
pub mod runtime;
pub mod render;
pub mod startup;
pub mod syntaxes;
pub mod highlight;
pub mod dispatch;
pub mod mouse;
pub mod engage;
pub mod blocks;
pub mod shell;
pub mod feed_items;
