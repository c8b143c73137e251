//! Routing core of an assistant: a rule-based intent classifier and a
//! dispatcher that sends each directive to a fast or a deep processing tier.

pub mod brain;
pub mod clock;
pub mod intent;
pub mod text;

pub use brain::{Brain, BrainConfig, Response, Stage};
pub use intent::{classify_intent, Intent, IntentClassifier};
