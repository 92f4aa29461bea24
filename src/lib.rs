//! Draw state machines of a gacha simulator: pity-scaled probabilities, spotlighted ("up")
//! slots with a guarantee after a miss, balancing between two sub-categories, and a bounded
//! wait for a wanted rare slot. Probabilities are integers in parts per million and every
//! draw consults uniform rolls in `[0, 1_000_000)`.
pub mod outcome;
pub mod rules;
pub mod random;
pub mod counters;
pub mod weapon;
pub mod character;
pub mod normal;
pub mod pool;
pub mod session;

pub use character::{CharacterConfig, CharacterCounters, CharacterGachaState};
pub use counters::{BalanceCounters, PityCounters};
pub use normal::{NormalConfig, NormalCounters, NormalGachaState};
pub use outcome::{
    CharacterGachaType, ItemLevel, ItemType, NormalGachaType, UpType, WantState, WeaponGachaType,
};
pub use pool::{CharacterPool, Pools};
pub use random::Rolls;
pub use rules::{PityRule, UpRule, SCALE};
pub use session::{
    Arguments, InteractiveAction, InteractiveCommand, InteractiveStage, InteractiveState,
};
pub use weapon::{WeaponConfig, WeaponCounters, WeaponGachaState};
