//! Bid on blockspace via the mekatek block auctions.
//!
//! This crate holds the client side of the Zenith block builder API: the
//! requests that bid on block space and ask for upcoming auctions, and the
//! reading of what the service answers.
//!
//! An `Http` forms the `Request` of each call; whoever sends it brings back a
//! `Response`, or the message of the failure, and `http::bid_response` or
//! `http::auction_response` turns that into the result of the call. Nothing
//! here touches the network, and nothing is kept between calls.

pub mod auction;
pub mod base64;
pub mod bid;
pub mod decimal;
pub mod error;
pub mod http;
pub mod json;
pub mod strings;

pub use auction::{AuctionRequest, AuctionResponse, Payment};
pub use bid::{BidRequest, BidResponse, Kind as BidKind};
pub use error::{AuctionError, Error};
pub use http::{Http, Method, Request, Response};
