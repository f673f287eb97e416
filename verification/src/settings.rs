//! What an exchange is configured with, and the budget of read attempts.

use vstd::prelude::*;

verus! {

/// The speed a transport is opened at when none is given.
pub const DEFAULT_BAUD: u32 = 9600;

/// How long one read or write call may take, in milliseconds.
pub const DEFAULT_IO_TIMEOUT_MS: u64 = 10;

/// The size of the buffer that one read fills.
pub const DEFAULT_BUFFER_SIZE: usize = 1024;

/// The pause between two read attempts, in milliseconds.
pub const DEFAULT_RETRY_DELAY_MS: u64 = 100;

/// The number of read attempts that one exchange may make.
pub const DEFAULT_MAX_ATTEMPTS: usize = 10;

/// How an exchange waits for the next read.
#[derive(Debug, Clone, Copy, PartialEq, Eq, Structural)]
pub enum WaitStrategy {
    /// Read-readiness is registered with a notifier, and each read follows
    /// its signal.
    Notifier,
    /// There is no notifier: the exchange reads, and pauses between
    /// attempts.
    Sleep,
}

/// The count of read attempts that one exchange may make, and the pause
/// between them. A budget belongs to one exchange and starts at zero.
#[derive(Debug, Clone, Copy, PartialEq, Eq, Structural)]
pub struct RetryBudget {
    /// Attempts made so far.
    pub attempts: usize,
    /// Attempts that may be made in all.
    pub max_attempts: usize,
    /// The pause between two attempts, in milliseconds.
    pub delay_ms: u64,
}

impl RetryBudget {
    /// No attempt may be made any more.
    pub open spec fn exhausted(self) -> bool {
        self.attempts >= self.max_attempts
    }

    /// The budget after one more attempt. An exhausted budget stays as it is.
    pub open spec fn spent(self) -> RetryBudget {
        if self.exhausted() {
            self
        } else {
            RetryBudget { attempts: (self.attempts + 1) as usize, ..self }
        }
    }

    /// A budget of which nothing is used yet.
    pub fn new(max_attempts: usize, delay_ms: u64) -> (budget: RetryBudget)
        ensures
            budget == (RetryBudget { attempts: 0, max_attempts, delay_ms }),
    {
        RetryBudget { attempts: 0, max_attempts, delay_ms }
    }

    /// Whether every attempt is used up.
    pub fn is_exhausted(&self) -> (used_up: bool)
        ensures
            used_up == self.exhausted(),
    {
        self.attempts >= self.max_attempts
    }

    /// How many attempts are left.
    pub fn remaining(&self) -> (left: usize)
        ensures
            left == if self.exhausted() { 0 } else { self.max_attempts - self.attempts },
    {
        if self.attempts >= self.max_attempts {
            0
        } else {
            self.max_attempts - self.attempts
        }
    }

    /// Counts one attempt, unless the budget is exhausted.
    pub fn spend(&mut self)
        ensures
            *final(self) == old(self).spent(),
    {
        if self.attempts < self.max_attempts {
            self.attempts = self.attempts + 1;
        }
    }
}

/// What the caller configures: how a transport is opened and how an
/// exchange retries. Nothing here is fixed by the library.
#[derive(Debug, Clone, Copy, PartialEq, Eq, Structural)]
pub struct Settings {
    /// The speed that the transport is opened at.
    pub speed: u32,
    /// How long one read or write call may take, in milliseconds.
    pub io_timeout_ms: u64,
    /// The size of the buffer that one read fills.
    pub buffer_size: usize,
    /// The number of read attempts that one exchange may make.
    pub max_attempts: usize,
    /// The pause between two read attempts, in milliseconds.
    pub retry_delay_ms: u64,
    /// How the exchange waits for the next read.
    pub strategy: WaitStrategy,
}

impl Settings {
    /// The settings that apply where the caller changes nothing.
    pub open spec fn standard() -> Settings {
        Settings {
            speed: DEFAULT_BAUD,
            io_timeout_ms: DEFAULT_IO_TIMEOUT_MS,
            buffer_size: DEFAULT_BUFFER_SIZE,
            max_attempts: DEFAULT_MAX_ATTEMPTS,
            retry_delay_ms: DEFAULT_RETRY_DELAY_MS,
            strategy: WaitStrategy::Sleep,
        }
    }

    /// The budget that an exchange under these settings starts with.
    pub open spec fn fresh_budget(self) -> RetryBudget {
        RetryBudget { attempts: 0, max_attempts: self.max_attempts, delay_ms: self.retry_delay_ms }
    }

    /// These settings with another speed.
    pub fn with_speed(self, speed: u32) -> (settings: Settings)
        ensures
            settings == (Settings { speed, ..self }),
    {
        Settings { speed, ..self }
    }

    /// These settings with another limit on one read or write call.
    pub fn with_io_timeout_ms(self, io_timeout_ms: u64) -> (settings: Settings)
        ensures
            settings == (Settings { io_timeout_ms, ..self }),
    {
        Settings { io_timeout_ms, ..self }
    }

    /// These settings with another size of the read buffer.
    pub fn with_buffer_size(self, buffer_size: usize) -> (settings: Settings)
        ensures
            settings == (Settings { buffer_size, ..self }),
    {
        Settings { buffer_size, ..self }
    }

    /// These settings with another number of read attempts.
    pub fn with_max_attempts(self, max_attempts: usize) -> (settings: Settings)
        ensures
            settings == (Settings { max_attempts, ..self }),
    {
        Settings { max_attempts, ..self }
    }

    /// These settings with another pause between read attempts.
    pub fn with_retry_delay_ms(self, retry_delay_ms: u64) -> (settings: Settings)
        ensures
            settings == (Settings { retry_delay_ms, ..self }),
    {
        Settings { retry_delay_ms, ..self }
    }

    /// These settings with another way of waiting.
    pub fn with_strategy(self, strategy: WaitStrategy) -> (settings: Settings)
        ensures
            settings == (Settings { strategy, ..self }),
    {
        Settings { strategy, ..self }
    }

    /// A fresh retry budget for one exchange.
    pub fn budget(&self) -> (budget: RetryBudget)
        ensures
            budget == self.fresh_budget(),
    {
        RetryBudget::new(self.max_attempts, self.retry_delay_ms)
    }
}

impl Default for Settings {
    fn default() -> (settings: Settings)
        ensures
            settings == Settings::standard(),
    {
        Settings {
            speed: DEFAULT_BAUD,
            io_timeout_ms: DEFAULT_IO_TIMEOUT_MS,
            buffer_size: DEFAULT_BUFFER_SIZE,
            max_attempts: DEFAULT_MAX_ATTEMPTS,
            retry_delay_ms: DEFAULT_RETRY_DELAY_MS,
            strategy: WaitStrategy::Sleep,
        }
    }
}

} // verus!
