//! Gv scorer: a ranking-adjustment stage for a candidate-ranking pipeline.
//!
//! Given a batch of post candidates that carry a base relevance score and a
//! set of predicted engagement probabilities ("Phoenix scores"), the stage
//! derives a bounded survivability/regret signal per candidate and multiplies
//! it into the existing score, nudging rank order toward content predicted to
//! be net-positive while never fully suppressing any candidate.
//!
//! All quantities are fixed-point micro-units: the real value 1.0 is held as
//! the integer `1_000_000`. The host pipeline's floating-point boundary
//! converts to and from this representation outside the library.

pub mod candidate;
pub mod params;
pub mod scorer;
pub mod sigmoid;

pub use candidate::PhoenixScores;
pub use candidate::PostCandidate;
pub use candidate::ScoreDelta;
pub use candidate::ScoredPostsQuery;
pub use scorer::GvScorer;
