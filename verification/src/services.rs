/// Authentication service for the SDK.
pub mod auth_service;
/// The service contains everything related to the meeting.
pub mod meeting_service;
/// This service contains some useful settings.
pub mod setting_service;
