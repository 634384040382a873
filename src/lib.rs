// The device account of an end-to-end encrypted Matrix client and the decisions
// around its Olm sessions:
// - `account`: identity, shared flag and key counts, the key upload rules, device
//   keys and pickling;
// - `decrypt`: the decryption of Olm to-device events, step by step, with the
//   session probe, the envelope checks and the replay classification;
// - `message`: Olm message types and the replay hash of a message;
// - `encoding`: unpadded base64;
// - `error`: the errors of decryption.

pub mod account;
pub mod decrypt;
pub mod encoding;
pub mod error;
pub mod message;
