pub mod clock;
pub mod error;
pub mod generator;
pub mod membership;
pub mod monitoring;
pub mod responses;
pub mod seqs;
pub mod text;
pub mod validator;
