//! The typed domain records and their builders.

pub mod company;
pub mod employee;
pub mod employee_announcement;
pub mod overtime;
pub mod work_card;
pub mod work_day_details;
