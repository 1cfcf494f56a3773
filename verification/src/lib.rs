pub mod bitboard;
pub mod board;
pub mod errors;
pub mod loc;
