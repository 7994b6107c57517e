pub mod bullets;
pub mod error;
pub mod html;
pub mod jobresult;
pub mod json;
pub mod links;
pub mod llm;
pub mod pipeline;
pub mod scraper_impls;
pub mod scraper_trait;
pub mod text;
