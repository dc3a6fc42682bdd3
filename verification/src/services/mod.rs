pub mod hashmap_user_store;
