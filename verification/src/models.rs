pub mod canteen;
pub mod location;
pub mod meal;
