pub mod batch_thumbnail;
pub mod card;
pub mod data_url;
pub mod decimal;
pub mod fixed;
pub mod fonts;
pub mod format;
pub mod geometry;
pub mod images;
pub mod payload;
pub mod playlist_thumbnail;
pub mod ratings;
pub mod reweight_card;
pub mod scene;
pub mod shapes;
pub mod ssrm_thumbnail;
pub mod strings;
pub mod text;
