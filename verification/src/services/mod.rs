pub mod site_service;
