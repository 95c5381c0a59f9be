//! A verified notification dispatcher for a Neovim GUI front end.
//!
//! The dispatcher receives RPC notifications (an event name plus a list of
//! msgpack values), classifies each by exact string match on its name, and
//! stages the work for the matching collaborator: the redraw decoder, the
//! settings store, or the platform's shell-integration routines. Unknown
//! names are accepted and ignored. The embedding process performs the staged
//! calls and the logging; everything decided here is proved.

pub mod handler;
pub mod msgpack;
