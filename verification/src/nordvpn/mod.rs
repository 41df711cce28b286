pub mod cli;
pub mod command;
pub mod proofs;
pub mod re;
pub mod settings;
pub mod values;

pub use cli::{
    account, cities, connect, countries, disconnect, groups, login, logout, status, version,
    Account, ConnectOption, Connected, NordVPN, Status,
};
pub use command::{CliError, CliResult, Command, Output, Reply, Spawned};
pub use re::{parse_list, RegexError};
pub use settings::{Setting, Settings};
pub use values::{Byte, Date, Duration, Protocol, Technology, Transfer, Version};
