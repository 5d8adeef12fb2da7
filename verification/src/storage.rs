pub mod db;
