//! What an engine needs beside the table configuration.

pub mod default;
