//! Decision logic for granting the orientation-phase role to new members: a
//! shared counter of the tracked invite's uses, the attribution of a join to
//! that invite, the password check and the steps of the `/ophase` command.
pub mod command;
pub mod guild;
pub mod join;
pub mod password;
pub mod tracker;
