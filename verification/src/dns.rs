//! DNS providers: what each is configured with, the requests it makes of
//! its API, and what it reads from the API's answers. The calls themselves
//! are made by the caller.

pub mod cloudflare;
pub mod route53;
