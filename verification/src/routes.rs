//! What the service answers on its routes, apart from the subscription form.

pub mod login;
