pub mod text;
pub mod ddl_precheck;
pub mod shared;
pub mod ddl_precheck_service;
pub mod lossy_ddl;
pub mod ddl_checker;
pub mod multiplexer;
pub mod config;
pub mod response;
pub mod causality;
pub mod user;
pub mod token;
pub mod passwords;
pub mod captcha;
pub mod accounts;
pub mod login;
pub mod oauth;
pub mod middleware;
pub mod handlers;
pub mod chat;
pub mod user_store;
pub mod dtos;
pub mod static_files;
pub mod events;
pub mod clinic;
pub mod observability;
